//! Course registration and the course lifecycle:
//! Pending -> Active (approve) or Rejected (reject), Active <-> Paused,
//! Paused -> Archived (see `refunds`), plus the per-course settings.
use vstd::prelude::*;
use crate::model::{ContractError, Course, CourseStatus, CourseView, TextList};
use crate::state::{catalog, counts_cover, lemma_cover_kept, owned, owned_pending, ARCHIVE_COOLDOWN_LEDGERS, EXPECTED_TOKEN_DECIMALS, HamplardContract, MAX_COURSE_PRICE_STROOPS, MIN_COURSE_PRICE_STROOPS, State, admin_check, admin_or_approver_check, committed, count_of, in_set, is_admin, lookup_course, texts_of};
use crate::table::{Addr, Key, KeyView, Table, akey, copy_bytes, tkey};
use crate::text::{MAX_COURSE_ID_LEN, is_printable_ascii, printable_ascii};

verus! {

/// The state with one course record replaced.
pub open spec fn with_course(s: State, id: Seq<u8>, c: CourseView) -> State {
    State { courses: s.courses.insert(tkey(id), c), ..s }
}

/// Whether `caller` may manage the course: the admin or its instructor.
pub open spec fn may_manage(s: State, caller: Addr, c: CourseView) -> bool {
    is_admin(s, caller) || caller == c.instructor
}

/// A list with one id appended, starting from the empty list.
pub open spec fn appended(m: Map<KeyView, Seq<Seq<u8>>>, k: KeyView, id: Seq<u8>) -> Map<
    KeyView,
    Seq<Seq<u8>>,
> {
    m.insert(k, texts_of(m, k).push(id))
}

/// The checks of a new course's parameters, in the order they are made.
pub open spec fn registration_error(
    s: State,
    now: u32,
    instructor: Addr,
    course_id: Seq<u8>,
    price: i128,
    token_decimals: u32,
    platform_fee_pct: u32,
    max_capacity: Option<u32>,
) -> Option<ContractError> {
    let k = tkey(course_id);
    if token_decimals != EXPECTED_TOKEN_DECIMALS {
        Some(ContractError::TokenDecimalsMismatch)
    } else if in_set(s.frozen_instructors, instructor) {
        Some(ContractError::InstructorFrozen)
    } else if course_id.len() == 0 {
        Some(ContractError::CourseIdEmpty)
    } else if course_id.len() > MAX_COURSE_ID_LEN {
        Some(ContractError::CourseIdTooLong)
    } else if max_capacity == Some(0u32) {
        Some(ContractError::MaxCapacityZero)
    } else if !printable_ascii(course_id) {
        Some(ContractError::CourseIdInvalidCharacters)
    } else if price < 0 {
        Some(ContractError::PriceNegative)
    } else if price != 0 && (price < MIN_COURSE_PRICE_STROOPS || price > MAX_COURSE_PRICE_STROOPS) {
        Some(ContractError::PriceOutOfRange)
    } else if s.courses.contains_key(k) {
        Some(ContractError::CourseAlreadyRegistered)
    } else if s.archived.contains_key(k) && s.archived[k].archived_at_ledger is Some
        && s.archived[k].archived_at_ledger->0 + ARCHIVE_COOLDOWN_LEDGERS > u32::MAX {
        Some(ContractError::Overflow)
    } else if s.archived.contains_key(k) && s.archived[k].archived_at_ledger is Some && now
        < s.archived[k].archived_at_ledger->0 + ARCHIVE_COOLDOWN_LEDGERS {
        Some(ContractError::CourseAlreadyRegistered)
    } else if count_of(s.course_counts, instructor) >= s.max_courses {
        Some(ContractError::MaxCoursesReached)
    } else if count_of(s.pending_counts, instructor) >= s.max_courses {
        Some(ContractError::MaxPendingCoursesReached)
    } else if platform_fee_pct != 0 && platform_fee_pct > 100 {
        Some(ContractError::FeeTooHigh)
    } else if platform_fee_pct != 0 && platform_fee_pct < s.default_fee {
        Some(ContractError::FeeBelowMinimum)
    } else {
        None
    }
}

/// The record of a newly registered course.
pub open spec fn new_course(
    s: State,
    now: u32,
    instructor: Addr,
    course_id: Seq<u8>,
    price: i128,
    token: Addr,
    platform_fee_pct: u32,
    max_capacity: Option<u32>,
    content_hash: Seq<u8>,
) -> CourseView {
    CourseView {
        id: course_id,
        instructor,
        price,
        platform_fee_percent: if platform_fee_pct == 0 { s.default_fee } else { platform_fee_pct },
        token,
        total_enrollments: 0,
        active_enrollments: 0,
        total_earned: 0,
        status: CourseStatus::Pending,
        created_at_ledger: now,
        max_capacity,
        enrollment_start_ledger: None,
        enrollment_expiry_ledgers: None,
        min_completion_ledgers: s.default_min_completion,
        version: 1,
        last_updated_ledger: now,
        expires_at_ledger: None,
        content_hash,
        max_certificates: None,
        certificates_issued: 0,
        prerequisite_course_ids: Seq::empty(),
        archived_at_ledger: None,
    }
}

/// Registration of a course: on success the course is stored as Pending,
/// catalogued, counted for its instructor, and the instructor is recorded
/// in the registry.
pub open spec fn spec_register_course(
    s: State,
    now: u32,
    instructor: Addr,
    course_id: Seq<u8>,
    price: i128,
    token: Addr,
    token_decimals: u32,
    platform_fee_pct: u32,
    max_capacity: Option<u32>,
    content_hash: Seq<u8>,
) -> Result<State, ContractError> {
    match registration_error(
        s,
        now,
        instructor,
        course_id,
        price,
        token_decimals,
        platform_fee_pct,
        max_capacity,
    ) {
        Some(e) => Err(e),
        None => Ok(
            State {
                courses: s.courses.insert(
                    tkey(course_id),
                    new_course(
                        s,
                        now,
                        instructor,
                        course_id,
                        price,
                        token,
                        platform_fee_pct,
                        max_capacity,
                        content_hash,
                    ),
                ),
                instructor_refs: s.instructor_refs.insert(tkey(course_id), instructor),
                course_list: s.course_list.push(course_id),
                course_counts: s.course_counts.insert(
                    akey(instructor),
                    (count_of(s.course_counts, instructor) + 1) as u32,
                ),
                pending_counts: s.pending_counts.insert(
                    akey(instructor),
                    (count_of(s.pending_counts, instructor) + 1) as u32,
                ),
                instructor_courses: appended(s.instructor_courses, akey(instructor), course_id),
                registry: if s.registry.contains(instructor) {
                    s.registry
                } else {
                    s.registry.push(instructor)
                },
                ..s
            },
        ),
    }
}

/// Elapsed ledgers since `since`, zero if `since` lies ahead.
pub open spec fn elapsed(now: u32, since: u32) -> u32 {
    if now >= since {
        (now - since) as u32
    } else {
        0
    }
}

/// Approval of a Pending course by the admin or an approver, after the
/// governance window since initialisation and the course's review delay.
pub open spec fn spec_approve_course(s: State, now: u32, caller: Addr, course_id: Seq<u8>) -> Result<
    State,
    ContractError,
> {
    match admin_or_approver_check(s, now, caller) {
        Some(e) => Err(e),
        None => {
            match lookup_course(s, course_id) {
                None => Err(ContractError::CourseNotFound),
                Some(c) => if elapsed(now, c.created_at_ledger) < s.min_review_delay {
                    Err(ContractError::ReviewPeriod)
                } else if s.init_ledger is Some && elapsed(now, s.init_ledger->0) < s.min_review_delay {
                    Err(ContractError::GovernanceWindow)
                } else if c.status != CourseStatus::Pending {
                    Err(ContractError::CourseNotPending)
                } else if count_of(s.pending_counts, c.instructor) == 0 {
                    Err(ContractError::CountUnderflow)
                } else {
                    Ok(
                        State {
                            courses: s.courses.insert(
                                tkey(course_id),
                                CourseView {
                                    status: CourseStatus::Active,
                                    last_updated_ledger: now,
                                    ..c
                                },
                            ),
                            pending_counts: s.pending_counts.insert(
                                akey(c.instructor),
                                (count_of(s.pending_counts, c.instructor) - 1) as u32,
                            ),
                            ..s
                        },
                    )
                },
            }
        },
    }
}

/// Rejection of a Pending course by the admin or an approver.
pub open spec fn spec_reject_course(s: State, now: u32, caller: Addr, course_id: Seq<u8>) -> Result<
    State,
    ContractError,
> {
    match admin_or_approver_check(s, now, caller) {
        Some(e) => Err(e),
        None => match lookup_course(s, course_id) {
            None => Err(ContractError::CourseNotFound),
            Some(c) => if c.status != CourseStatus::Pending {
                Err(ContractError::CourseNotPending)
            } else {
                Ok(
                    with_course(
                        s,
                        course_id,
                        CourseView { status: CourseStatus::Rejected, last_updated_ledger: now, ..c },
                    ),
                )
            },
        },
    }
}

/// Pausing an Active course, by the admin or the instructor.
pub open spec fn spec_pause_course(s: State, now: u32, caller: Addr, course_id: Seq<u8>) -> Result<
    State,
    ContractError,
> {
    match lookup_course(s, course_id) {
        None => Err(ContractError::CourseNotFound),
        Some(c) => if !may_manage(s, caller, c) {
            Err(ContractError::Unauthorized)
        } else if c.status != CourseStatus::Active {
            Err(ContractError::CourseNotActive)
        } else {
            Ok(
                with_course(
                    s,
                    course_id,
                    CourseView { status: CourseStatus::Paused, last_updated_ledger: now, ..c },
                ),
            )
        },
    }
}

/// Unpausing a Paused course, by the admin, or by its instructor unless frozen.
pub open spec fn spec_unpause_course(s: State, now: u32, caller: Addr, course_id: Seq<u8>) -> Result<
    State,
    ContractError,
> {
    match lookup_course(s, course_id) {
        None => Err(ContractError::CourseNotFound),
        Some(c) => if !may_manage(s, caller, c) {
            Err(ContractError::Unauthorized)
        } else if !is_admin(s, caller) && in_set(s.frozen_instructors, c.instructor) {
            Err(ContractError::InstructorFrozen)
        } else if c.status != CourseStatus::Paused {
            Err(ContractError::CourseNotPaused)
        } else {
            Ok(
                with_course(
                    s,
                    course_id,
                    CourseView { status: CourseStatus::Active, last_updated_ledger: now, ..c },
                ),
            )
        },
    }
}

/// The checks shared by the course settings: the course exists, the caller
/// manages it, the instructor is not frozen (unless `admin_bypass` lets the
/// admin through), and, with `archived_error`, the course is not archived.
pub open spec fn settings_error(
    s: State,
    caller: Addr,
    course_id: Seq<u8>,
    admin_bypass: bool,
    archived_error: Option<ContractError>,
) -> Option<ContractError> {
    match lookup_course(s, course_id) {
        None => Some(ContractError::CourseNotFound),
        Some(c) => if !may_manage(s, caller, c) {
            Some(ContractError::Unauthorized)
        } else if !(admin_bypass && is_admin(s, caller)) && in_set(
            s.frozen_instructors,
            c.instructor,
        ) {
            Some(ContractError::InstructorFrozen)
        } else if archived_error is Some && c.status == CourseStatus::Archived {
            archived_error
        } else {
            None
        },
    }
}

/// Setting the ledger from which enrollment opens.
pub open spec fn spec_set_enrollment_start_ledger(
    s: State,
    now: u32,
    caller: Addr,
    course_id: Seq<u8>,
    start: Option<u32>,
) -> Result<State, ContractError> {
    match settings_error(
        s,
        caller,
        course_id,
        false,
        Some(ContractError::CannotUpdateArchivedCourse),
    ) {
        Some(e) => Err(e),
        None => {
            let c = lookup_course(s, course_id)->0;
            Ok(
                with_course(
                    s,
                    course_id,
                    CourseView { enrollment_start_ledger: start, last_updated_ledger: now, ..c },
                ),
            )
        },
    }
}

/// Setting how long an enrollment stays completable.
pub open spec fn spec_set_enrollment_expiry(
    s: State,
    now: u32,
    caller: Addr,
    course_id: Seq<u8>,
    expiry_ledgers: Option<u32>,
) -> Result<State, ContractError> {
    match settings_error(s, caller, course_id, true, None) {
        Some(e) => Err(e),
        None => {
            let c = lookup_course(s, course_id)->0;
            Ok(
                with_course(
                    s,
                    course_id,
                    CourseView {
                        enrollment_expiry_ledgers: expiry_ledgers,
                        last_updated_ledger: now,
                        ..c
                    },
                ),
            )
        },
    }
}

/// Setting the ledger at which the course stops accepting enrollments.
pub open spec fn spec_set_course_expiry(
    s: State,
    now: u32,
    caller: Addr,
    course_id: Seq<u8>,
    expires_at: Option<u32>,
) -> Result<State, ContractError> {
    match settings_error(
        s,
        caller,
        course_id,
        false,
        Some(ContractError::CannotUpdateArchivedCourse),
    ) {
        Some(e) => Err(e),
        None => {
            let c = lookup_course(s, course_id)->0;
            Ok(
                with_course(
                    s,
                    course_id,
                    CourseView { expires_at_ledger: expires_at, last_updated_ledger: now, ..c },
                ),
            )
        },
    }
}

/// Replacing the content hash commitment.
pub open spec fn spec_update_content_hash(
    s: State,
    now: u32,
    caller: Addr,
    course_id: Seq<u8>,
    content_hash: Seq<u8>,
) -> Result<State, ContractError> {
    match settings_error(
        s,
        caller,
        course_id,
        true,
        Some(ContractError::ContentHashArchivedCourse),
    ) {
        Some(e) => Err(e),
        None => {
            let c = lookup_course(s, course_id)->0;
            Ok(
                with_course(
                    s,
                    course_id,
                    CourseView { content_hash, last_updated_ledger: now, ..c },
                ),
            )
        },
    }
}

/// Setting the certificate issuance limit; it may not fall below the
/// certificates already issued.
pub open spec fn spec_set_max_certificates(
    s: State,
    now: u32,
    caller: Addr,
    course_id: Seq<u8>,
    max_certs: Option<u32>,
) -> Result<State, ContractError> {
    match settings_error(
        s,
        caller,
        course_id,
        false,
        Some(ContractError::MaxCertificatesArchivedCourse),
    ) {
        Some(e) => Err(e),
        None => {
            let c = lookup_course(s, course_id)->0;
            if max_certs is Some && max_certs->0 < c.certificates_issued {
                Err(ContractError::MaxCertificatesBelowIssued)
            } else {
                Ok(
                    with_course(
                        s,
                        course_id,
                        CourseView { max_certificates: max_certs, last_updated_ledger: now, ..c },
                    ),
                )
            }
        },
    }
}

/// The first refusal among a prerequisite list, scanning from `i`.
pub open spec fn prerequisite_error(s: State, course_id: Seq<u8>, ps: Seq<Seq<u8>>, i: int) -> Option<
    ContractError,
>
    decreases ps.len() - i,
{
    if i >= ps.len() || i < 0 {
        None
    } else if ps[i] == course_id {
        Some(ContractError::OwnPrerequisite)
    } else if !s.courses.contains_key(tkey(ps[i])) {
        Some(ContractError::PrerequisiteNotFound)
    } else {
        prerequisite_error(s, course_id, ps, i + 1)
    }
}

/// Replacing the prerequisite list: every entry must be another live course.
pub open spec fn spec_set_prerequisite_courses(
    s: State,
    now: u32,
    caller: Addr,
    course_id: Seq<u8>,
    prerequisites: Seq<Seq<u8>>,
) -> Result<State, ContractError> {
    match settings_error(
        s,
        caller,
        course_id,
        true,
        Some(ContractError::CannotUpdateArchivedCourse),
    ) {
        Some(e) => Err(e),
        None => match prerequisite_error(s, course_id, prerequisites, 0) {
            Some(e) => Err(e),
            None => {
                let c = lookup_course(s, course_id)->0;
                Ok(
                    with_course(
                        s,
                        course_id,
                        CourseView {
                            prerequisite_course_ids: prerequisites,
                            last_updated_ledger: now,
                            ..c
                        },
                    ),
                )
            },
        },
    }
}

/// Price rule: free, or within the accepted stroop range.
pub open spec fn price_error(price: i128) -> Option<ContractError> {
    if price < 0 {
        Some(ContractError::PriceNegative)
    } else if price != 0 && (price < MIN_COURSE_PRICE_STROOPS || price > MAX_COURSE_PRICE_STROOPS) {
        Some(ContractError::PriceOutOfRange)
    } else {
        None
    }
}

/// Updating price and/or capacity; any change bumps the course version,
/// which is returned.
pub open spec fn spec_update_course(
    s: State,
    now: u32,
    caller: Addr,
    course_id: Seq<u8>,
    new_price: Option<i128>,
    new_max_capacity: Option<Option<u32>>,
) -> Result<(State, u32), ContractError> {
    match settings_error(
        s,
        caller,
        course_id,
        false,
        Some(ContractError::CannotUpdateArchivedCourse),
    ) {
        Some(e) => Err(e),
        None => {
            let c = lookup_course(s, course_id)->0;
            if new_price is Some && price_error(new_price->0) is Some {
                Err(price_error(new_price->0)->0)
            } else if new_max_capacity == Some(Some(0u32)) {
                Err(ContractError::MaxCapacityZero)
            } else if new_price is None && new_max_capacity is None {
                Ok((s, c.version))
            } else if c.version == u32::MAX {
                Err(ContractError::Overflow)
            } else {
                let v = (c.version + 1) as u32;
                Ok(
                    (
                        with_course(
                            s,
                            course_id,
                            CourseView {
                                price: if new_price is Some { new_price->0 } else { c.price },
                                max_capacity: if new_max_capacity is Some {
                                    new_max_capacity->0
                                } else {
                                    c.max_capacity
                                },
                                version: v,
                                last_updated_ledger: now,
                                ..c
                            },
                        ),
                        v,
                    ),
                )
            }
        },
    }
}

/// Handing a course to another instructor, by its instructor with the
/// admin's co-approval; counts and lists follow the course.
pub open spec fn spec_transfer_course(
    s: State,
    now: u32,
    instructor: Addr,
    admin: Addr,
    course_id: Seq<u8>,
    new_instructor: Addr,
) -> Result<State, ContractError> {
    match lookup_course(s, course_id) {
        None => Err(ContractError::CourseNotFound),
        Some(c) => {
            let pending = c.status == CourseStatus::Pending;
            let old_count = count_of(s.course_counts, c.instructor);
            let new_count = count_of(s.course_counts, new_instructor);
            let old_pending = count_of(s.pending_counts, c.instructor);
            let new_pending = count_of(s.pending_counts, new_instructor);
            if instructor != c.instructor {
                Err(ContractError::Unauthorized)
            } else if admin_check(s, now, admin) is Some {
                Err(admin_check(s, now, admin)->0)
            } else if c.status == CourseStatus::Archived {
                Err(ContractError::CannotTransferArchivedCourse)
            } else if new_instructor == c.instructor {
                Err(ContractError::SameInstructor)
            } else if in_set(s.frozen_instructors, instructor) || in_set(
                s.frozen_instructors,
                new_instructor,
            ) {
                Err(ContractError::InstructorFrozen)
            } else if new_count >= s.max_courses {
                Err(ContractError::MaxCoursesReached)
            } else if pending && new_pending >= s.max_courses {
                Err(ContractError::MaxPendingCoursesReached)
            } else if old_count == 0 || (pending && old_pending == 0) {
                Err(ContractError::CountUnderflow)
            } else {
                Ok(
                    State {
                        courses: s.courses.insert(
                            tkey(course_id),
                            CourseView { instructor: new_instructor, last_updated_ledger: now, ..c },
                        ),
                        instructor_refs: s.instructor_refs.insert(tkey(course_id), new_instructor),
                        course_counts: s.course_counts.insert(
                            akey(c.instructor),
                            (old_count - 1) as u32,
                        ).insert(akey(new_instructor), (new_count + 1) as u32),
                        pending_counts: if pending {
                            s.pending_counts.insert(
                                akey(c.instructor),
                                (old_pending - 1) as u32,
                            ).insert(akey(new_instructor), (new_pending + 1) as u32)
                        } else {
                            s.pending_counts
                        },
                        instructor_courses: appended(
                            s.instructor_courses,
                            akey(new_instructor),
                            course_id,
                        ),
                        ..s
                    },
                )
            }
        },
    }
}

/// Appends an id to a keyed list of ids.
pub fn push_text(t: &mut Table<TextList>, k: Key, item: &Vec<u8>)
    requires
        old(t).wf(),
    ensures
        final(t).wf(),
        final(t)@ == appended(old(t)@, k@, item@),
{
    let ghost kv = k@;
    let ghost before = texts_of(t@, kv);
    let mut list = match t.remove(&k) {
        Some(l) => l,
        None => TextList { items: Vec::new() },
    };
    assert(list@ == before) by {
        if !old(t)@.contains_key(kv) {
            assert(list@ =~= Seq::<Seq<u8>>::empty());
        }
    }
    let ghost prev = list.items@;
    list.items.push(copy_bytes(item));
    assert(list@ =~= before.push(item@)) by {
        assert(list.items@ == prev.push(list.items@[prev.len() as int]));
    }
    t.set(k, list);
    assert(t@ =~= old(t)@.insert(kv, before.push(item@)));
}

/// A subset of a finite set is finite and no larger.
proof fn lemma_sub_len(a: Set<KeyView>, b: Set<KeyView>)
    requires
        b.finite(),
        a.subset_of(b),
    ensures
        a.finite(),
        a.len() <= b.len(),
{
    vstd::set_lib::lemma_len_subset(a, b);
}

/// The courses of `a` in a finite course map form a finite set.
proof fn lemma_owned_finite(m: Map<KeyView, CourseView>, a: Addr)
    requires
        m.dom().finite(),
    ensures
        owned(m, a).finite(),
        owned_pending(m, a).finite(),
{
    m.dom().lemma_len_filter(|k: KeyView| m[k].instructor == a);
    m.dom().lemma_len_filter(|k: KeyView| m[k].instructor == a && m[k].status == CourseStatus::Pending);
}

/// Registering course `k` as Pending for `a`, with both of `a`'s counters
/// raised by one, keeps the counters covering.
proof fn lemma_cover_register(s1: State, s2: State, k: KeyView, c: CourseView)
    requires
        counts_cover(s1),
        catalog(s2) == catalog(s1).insert(k, c),
        s2.course_counts == s1.course_counts.insert(
            akey(c.instructor),
            (count_of(s1.course_counts, c.instructor) + 1) as u32,
        ),
        s2.pending_counts == s1.pending_counts.insert(
            akey(c.instructor),
            (count_of(s1.pending_counts, c.instructor) + 1) as u32,
        ),
        count_of(s1.course_counts, c.instructor) < u32::MAX,
        count_of(s1.pending_counts, c.instructor) < u32::MAX,
    ensures
        counts_cover(s2),
{
    let (m1, m2) = (catalog(s1), catalog(s2));
    let a = c.instructor;
    assert forall|b: Addr| owned(m2, b).len() <= #[trigger] count_of(s2.course_counts, b) by {
        lemma_owned_finite(m1, b);
        assert(count_of(s1.course_counts, b) >= owned(m1, b).len());
        if b == a {
            assert(owned(m2, b).subset_of(owned(m1, b).insert(k)));
            lemma_sub_len(owned(m2, b), owned(m1, b).insert(k));
        } else {
            assert(akey(b) != akey(a));
            assert(owned(m2, b).subset_of(owned(m1, b)));
            lemma_sub_len(owned(m2, b), owned(m1, b));
        }
    }
    assert forall|b: Addr| owned_pending(m2, b).len() <= #[trigger] count_of(s2.pending_counts, b) by {
        lemma_owned_finite(m1, b);
        assert(count_of(s1.pending_counts, b) >= owned_pending(m1, b).len());
        if b == a {
            assert(owned_pending(m2, b).subset_of(owned_pending(m1, b).insert(k)));
            lemma_sub_len(owned_pending(m2, b), owned_pending(m1, b).insert(k));
        } else {
            assert(akey(b) != akey(a));
            assert(owned_pending(m2, b).subset_of(owned_pending(m1, b)));
            lemma_sub_len(owned_pending(m2, b), owned_pending(m1, b));
        }
    }
}

/// Approving Pending course `k` of `a`, with `a`'s pending counter lowered
/// by one, keeps the counters covering.
proof fn lemma_cover_approve(s1: State, s2: State, k: KeyView, c: CourseView)
    requires
        counts_cover(s1),
        catalog(s1).contains_key(k),
        catalog(s1)[k].instructor == c.instructor,
        catalog(s1)[k].status == CourseStatus::Pending,
        c.status != CourseStatus::Pending,
        catalog(s2) == catalog(s1).insert(k, c),
        s2.course_counts == s1.course_counts,
        s2.pending_counts == s1.pending_counts.insert(
            akey(c.instructor),
            (count_of(s1.pending_counts, c.instructor) - 1) as u32,
        ),
    ensures
        counts_cover(s2),
{
    let (m1, m2) = (catalog(s1), catalog(s2));
    let a = c.instructor;
    assert forall|b: Addr| owned(m2, b).len() <= #[trigger] count_of(s2.course_counts, b) by {
        lemma_owned_finite(m1, b);
        assert(count_of(s1.course_counts, b) >= owned(m1, b).len());
        assert(owned(m2, b).subset_of(owned(m1, b)));
        lemma_sub_len(owned(m2, b), owned(m1, b));
    }
    assert forall|b: Addr| owned_pending(m2, b).len() <= #[trigger] count_of(s2.pending_counts, b) by {
        lemma_owned_finite(m1, b);
        assert(count_of(s1.pending_counts, b) >= owned_pending(m1, b).len());
        if b == a {
            assert(owned_pending(m1, b).contains(k));
            assert(owned_pending(m2, b).subset_of(owned_pending(m1, b).remove(k)));
            lemma_sub_len(owned_pending(m2, b), owned_pending(m1, b).remove(k));
        } else {
            assert(akey(b) != akey(a));
            assert(owned_pending(m2, b).subset_of(owned_pending(m1, b)));
            lemma_sub_len(owned_pending(m2, b), owned_pending(m1, b));
        }
    }
}

/// Moving course `k` from `a` to another instructor `b`, with the course
/// counters (and, for a Pending course, the pending counters) moved along,
/// keeps the counters covering.
proof fn lemma_cover_transfer(s1: State, s2: State, k: KeyView, c: CourseView, a: Addr)
    requires
        counts_cover(s1),
        catalog(s1).contains_key(k),
        catalog(s1)[k].instructor == a,
        c.instructor != a,
        c.status == catalog(s1)[k].status,
        catalog(s2) == catalog(s1).insert(k, c),
        count_of(s1.course_counts, c.instructor) < u32::MAX,
        s2.course_counts == s1.course_counts.insert(akey(a), (count_of(s1.course_counts, a) - 1) as u32).insert(
            akey(c.instructor),
            (count_of(s1.course_counts, c.instructor) + 1) as u32,
        ),
        c.status == CourseStatus::Pending ==> count_of(s1.pending_counts, c.instructor) < u32::MAX
            && s2.pending_counts == s1.pending_counts.insert(
            akey(a),
            (count_of(s1.pending_counts, a) - 1) as u32,
        ).insert(akey(c.instructor), (count_of(s1.pending_counts, c.instructor) + 1) as u32),
        c.status != CourseStatus::Pending ==> s2.pending_counts == s1.pending_counts,
    ensures
        counts_cover(s2),
{
    let (m1, m2) = (catalog(s1), catalog(s2));
    let n = c.instructor;
    assert(akey(a) != akey(n));
    assert forall|b: Addr| owned(m2, b).len() <= #[trigger] count_of(s2.course_counts, b) by {
        lemma_owned_finite(m1, b);
        assert(count_of(s1.course_counts, b) >= owned(m1, b).len());
        if b == a {
            assert(owned(m1, b).contains(k));
            assert(owned(m2, b).subset_of(owned(m1, b).remove(k)));
            lemma_sub_len(owned(m2, b), owned(m1, b).remove(k));
        } else if b == n {
            assert(owned(m2, b).subset_of(owned(m1, b).insert(k)));
            lemma_sub_len(owned(m2, b), owned(m1, b).insert(k));
        } else {
            assert(akey(b) != akey(a) && akey(b) != akey(n));
            assert(owned(m2, b).subset_of(owned(m1, b)));
            lemma_sub_len(owned(m2, b), owned(m1, b));
        }
    }
    assert forall|b: Addr| owned_pending(m2, b).len() <= #[trigger] count_of(s2.pending_counts, b) by {
        lemma_owned_finite(m1, b);
        assert(count_of(s1.pending_counts, b) >= owned_pending(m1, b).len());
        if c.status == CourseStatus::Pending {
            if b == a {
                assert(owned_pending(m1, b).contains(k));
                assert(owned_pending(m2, b).subset_of(owned_pending(m1, b).remove(k)));
                lemma_sub_len(owned_pending(m2, b), owned_pending(m1, b).remove(k));
            } else if b == n {
                assert(owned_pending(m2, b).subset_of(owned_pending(m1, b).insert(k)));
                lemma_sub_len(owned_pending(m2, b), owned_pending(m1, b).insert(k));
            } else {
                assert(akey(b) != akey(a) && akey(b) != akey(n));
                assert(owned_pending(m2, b).subset_of(owned_pending(m1, b)));
                lemma_sub_len(owned_pending(m2, b), owned_pending(m1, b));
            }
        } else {
            assert(owned_pending(m2, b).subset_of(owned_pending(m1, b)));
            lemma_sub_len(owned_pending(m2, b), owned_pending(m1, b));
        }
    }
}

impl HamplardContract {
    /// Stores a course record under an id.
    pub fn put_course(&mut self, id: &Vec<u8>, c: Course)
        requires
            old(self).wf(),
            lookup_course(old(self)@, id@) matches Some(c0) && c0.instructor == c.instructor && (c.status
                == CourseStatus::Pending ==> c0.status == CourseStatus::Pending),
        ensures
            final(self).wf(),
            final(self)@ == with_course(old(self)@, id@, c@),
    {
        let ghost c1 = c@;
        self.courses.set(Key::of_text(id), c);
        proof {
            assert(catalog(self@) =~= catalog(old(self)@).insert(tkey(id@), c1));
            lemma_cover_kept(old(self)@, self@);
        }
    }

    pub fn may_manage_course(&self, caller: Addr, c: &Course) -> (r: bool)
        ensures
            r == may_manage(self@, caller, c@),
    {
        self.is_admin_addr(caller) || caller == c.instructor
    }

    fn check_settings(
        &self,
        caller: Addr,
        course_id: &Vec<u8>,
        admin_bypass: bool,
        archived_error: Option<ContractError>,
    ) -> (r: Option<ContractError>)
        requires
            self.wf(),
        ensures
            r == settings_error(self@, caller, course_id@, admin_bypass, archived_error),
    {
        match self.find_course(course_id) {
            None => Some(ContractError::CourseNotFound),
            Some(c) => {
                if !self.may_manage_course(caller, c) {
                    Some(ContractError::Unauthorized)
                } else if !(admin_bypass && self.is_admin_addr(caller)) && Self::in_addr_set(
                    &self.frozen_instructors,
                    c.instructor,
                ) {
                    Some(ContractError::InstructorFrozen)
                } else if archived_error.is_some() && c.status == CourseStatus::Archived {
                    archived_error
                } else {
                    None
                }
            },
        }
    }

    fn registry_contains(&self, a: Addr) -> (r: bool)
        ensures
            r == self@.registry.contains(a),
    {
        let mut i: usize = 0;
        while i < self.registry.items.len()
            invariant
                i <= self.registry.items.len(),
                forall|j: int| 0 <= j < i ==> self.registry.items@[j] != a,
            decreases self.registry.items.len() - i,
        {
            if self.registry.items[i] == a {
                assert(self@.registry[i as int] == a);
                return true;
            }
            i = i + 1;
        }
        false
    }

    /// Instructor registers a new course; it starts Pending and needs an
    /// approval before students can enroll. `token_decimals` is the decimal
    /// precision the payment token reports. Returns the course id.
    pub fn register_course(
        &mut self,
        now: u32,
        instructor: Addr,
        course_id: &Vec<u8>,
        price: i128,
        token: Addr,
        token_decimals: u32,
        platform_fee_pct: u32,
        max_capacity: Option<u32>,
        content_hash: [u8; 32],
    ) -> (r: Result<Vec<u8>, ContractError>)
        requires
            old(self).wf(),
        ensures
            final(self).wf(),
            committed(
                r,
                spec_register_course(
                    old(self)@,
                    now,
                    instructor,
                    course_id@,
                    price,
                    token,
                    token_decimals,
                    platform_fee_pct,
                    max_capacity,
                    content_hash@,
                ),
                old(self)@,
                final(self)@,
            ),
            r matches Ok(id) ==> id@ == course_id@,
    {
        if token_decimals != EXPECTED_TOKEN_DECIMALS {
            return Err(ContractError::TokenDecimalsMismatch);
        }
        if Self::in_addr_set(&self.frozen_instructors, instructor) {
            return Err(ContractError::InstructorFrozen);
        }
        if course_id.len() == 0 {
            return Err(ContractError::CourseIdEmpty);
        }
        if course_id.len() > MAX_COURSE_ID_LEN {
            return Err(ContractError::CourseIdTooLong);
        }
        if max_capacity == Some(0u32) {
            return Err(ContractError::MaxCapacityZero);
        }
        if !is_printable_ascii(course_id) {
            return Err(ContractError::CourseIdInvalidCharacters);
        }
        if price < 0 {
            return Err(ContractError::PriceNegative);
        }
        if price != 0 && (price < MIN_COURSE_PRICE_STROOPS || price > MAX_COURSE_PRICE_STROOPS) {
            return Err(ContractError::PriceOutOfRange);
        }
        let key = Key::of_text(course_id);
        if self.courses.contains(&key) {
            return Err(ContractError::CourseAlreadyRegistered);
        }
        match self.archived.get(&key) {
            Some(old_course) => {
                match old_course.archived_at_ledger {
                    Some(archived_ledger) => {
                        if archived_ledger > u32::MAX - ARCHIVE_COOLDOWN_LEDGERS {
                            return Err(ContractError::Overflow);
                        }
                        if now < archived_ledger + ARCHIVE_COOLDOWN_LEDGERS {
                            return Err(ContractError::CourseAlreadyRegistered);
                        }
                    },
                    None => {},
                }
            },
            None => {},
        }
        let current_count = Self::counter(&self.course_counts, instructor);
        if current_count >= self.max_courses {
            return Err(ContractError::MaxCoursesReached);
        }
        let current_pending = Self::counter(&self.pending_counts, instructor);
        if current_pending >= self.max_courses {
            return Err(ContractError::MaxPendingCoursesReached);
        }
        let fee = if platform_fee_pct == 0 {
            self.default_fee
        } else {
            if platform_fee_pct > 100 {
                return Err(ContractError::FeeTooHigh);
            }
            if platform_fee_pct < self.default_fee {
                return Err(ContractError::FeeBelowMinimum);
            }
            platform_fee_pct
        };
        let course = Course {
            id: copy_bytes(course_id),
            instructor,
            price,
            platform_fee_percent: fee,
            token,
            total_enrollments: 0,
            active_enrollments: 0,
            total_earned: 0,
            status: CourseStatus::Pending,
            created_at_ledger: now,
            max_capacity,
            enrollment_start_ledger: None,
            enrollment_expiry_ledgers: None,
            min_completion_ledgers: self.default_min_completion,
            version: 1,
            last_updated_ledger: now,
            expires_at_ledger: None,
            content_hash,
            max_certificates: None,
            certificates_issued: 0,
            prerequisite_course_ids: Vec::new(),
            archived_at_ledger: None,
        };
        assert(course@.prerequisite_course_ids =~= Seq::<Seq<u8>>::empty());
        let ghost cv = course@;
        self.courses.set(key, course);
        self.instructor_refs.set(Key::of_text(course_id), instructor);
        let ghost prev_list = self.course_list.items@;
        self.course_list.items.push(copy_bytes(course_id));
        assert(self.course_list@ =~= old(self)@.course_list.push(course_id@)) by {
            assert(self.course_list.items@ == prev_list.push(
                self.course_list.items@[prev_list.len() as int],
            ));
        }
        self.course_counts.set(Key::of_addr(instructor), current_count + 1);
        self.pending_counts.set(Key::of_addr(instructor), current_pending + 1);
        push_text(&mut self.instructor_courses, Key::of_addr(instructor), course_id);
        if !self.registry_contains(instructor) {
            self.registry.items.push(instructor);
        }
        proof {
            assert(catalog(self@) =~= catalog(old(self)@).insert(tkey(course_id@), cv));
            lemma_cover_register(old(self)@, self@, tkey(course_id@), cv);
        }
        Ok(copy_bytes(course_id))
    }

    /// Admin or approver approves a Pending course, making it Active.
    pub fn approve_course(&mut self, now: u32, caller: Addr, course_id: &Vec<u8>) -> (r: Result<
        (),
        ContractError,
    >)
        requires
            old(self).wf(),
        ensures
            final(self).wf(),
            committed(
                r,
                spec_approve_course(old(self)@, now, caller, course_id@),
                old(self)@,
                final(self)@,
            ),
    {
        match self.check_admin_or_approver(now, caller) {
            Some(e) => {
                return Err(e);
            },
            None => {},
        }
        let mut course = match self.find_course(course_id) {
            None => {
                return Err(ContractError::CourseNotFound);
            },
            Some(c) => c.duplicate(),
        };
        let since_created = if now >= course.created_at_ledger {
            now - course.created_at_ledger
        } else {
            0
        };
        if since_created < self.min_review_delay {
            return Err(ContractError::ReviewPeriod);
        }
        match self.init_ledger {
            Some(init_ledger) => {
                let since = if now >= init_ledger {
                    now - init_ledger
                } else {
                    0
                };
                if since < self.min_review_delay {
                    return Err(ContractError::GovernanceWindow);
                }
            },
            None => {},
        }
        if course.status != CourseStatus::Pending {
            return Err(ContractError::CourseNotPending);
        }
        let pending = Self::counter(&self.pending_counts, course.instructor);
        if pending == 0 {
            return Err(ContractError::CountUnderflow);
        }
        let instructor = course.instructor;
        course.status = CourseStatus::Active;
        course.last_updated_ledger = now;
        let ghost cv = course@;
        self.put_course(course_id, course);
        self.pending_counts.set(Key::of_addr(instructor), pending - 1);
        proof {
            let k = tkey(course_id@);
            assert(catalog(self@) =~= catalog(old(self)@).insert(k, cv));
            assert(catalog(old(self)@)[k] == lookup_course(old(self)@, course_id@)->0);
            lemma_cover_approve(old(self)@, self@, k, cv);
        }
        Ok(())
    }

    /// Admin or approver rejects a Pending course.
    pub fn reject_course(&mut self, now: u32, caller: Addr, course_id: &Vec<u8>) -> (r: Result<
        (),
        ContractError,
    >)
        requires
            old(self).wf(),
        ensures
            final(self).wf(),
            committed(
                r,
                spec_reject_course(old(self)@, now, caller, course_id@),
                old(self)@,
                final(self)@,
            ),
    {
        match self.check_admin_or_approver(now, caller) {
            Some(e) => {
                return Err(e);
            },
            None => {},
        }
        let mut course = match self.find_course(course_id) {
            None => {
                return Err(ContractError::CourseNotFound);
            },
            Some(c) => c.duplicate(),
        };
        if course.status != CourseStatus::Pending {
            return Err(ContractError::CourseNotPending);
        }
        course.status = CourseStatus::Rejected;
        course.last_updated_ledger = now;
        self.put_course(course_id, course);
        Ok(())
    }

    /// Instructor or admin pauses an Active course; new enrollments stop.
    pub fn pause_course(&mut self, now: u32, caller: Addr, course_id: &Vec<u8>) -> (r: Result<
        (),
        ContractError,
    >)
        requires
            old(self).wf(),
        ensures
            final(self).wf(),
            committed(
                r,
                spec_pause_course(old(self)@, now, caller, course_id@),
                old(self)@,
                final(self)@,
            ),
    {
        let mut course = match self.find_course(course_id) {
            None => {
                return Err(ContractError::CourseNotFound);
            },
            Some(c) => c.duplicate(),
        };
        if !self.may_manage_course(caller, &course) {
            return Err(ContractError::Unauthorized);
        }
        if course.status != CourseStatus::Active {
            return Err(ContractError::CourseNotActive);
        }
        course.status = CourseStatus::Paused;
        course.last_updated_ledger = now;
        self.put_course(course_id, course);
        Ok(())
    }

    /// Instructor or admin restores a Paused course to Active.
    pub fn unpause_course(&mut self, now: u32, caller: Addr, course_id: &Vec<u8>) -> (r: Result<
        (),
        ContractError,
    >)
        requires
            old(self).wf(),
        ensures
            final(self).wf(),
            committed(
                r,
                spec_unpause_course(old(self)@, now, caller, course_id@),
                old(self)@,
                final(self)@,
            ),
    {
        let mut course = match self.find_course(course_id) {
            None => {
                return Err(ContractError::CourseNotFound);
            },
            Some(c) => c.duplicate(),
        };
        if !self.may_manage_course(caller, &course) {
            return Err(ContractError::Unauthorized);
        }
        if !self.is_admin_addr(caller) && Self::in_addr_set(
            &self.frozen_instructors,
            course.instructor,
        ) {
            return Err(ContractError::InstructorFrozen);
        }
        if course.status != CourseStatus::Paused {
            return Err(ContractError::CourseNotPaused);
        }
        course.status = CourseStatus::Active;
        course.last_updated_ledger = now;
        self.put_course(course_id, course);
        Ok(())
    }

    /// Instructor or admin sets the ledger from which enrollment opens.
    pub fn set_enrollment_start_ledger(
        &mut self,
        now: u32,
        caller: Addr,
        course_id: &Vec<u8>,
        enrollment_start_ledger: Option<u32>,
    ) -> (r: Result<(), ContractError>)
        requires
            old(self).wf(),
        ensures
            final(self).wf(),
            committed(
                r,
                spec_set_enrollment_start_ledger(
                    old(self)@,
                    now,
                    caller,
                    course_id@,
                    enrollment_start_ledger,
                ),
                old(self)@,
                final(self)@,
            ),
    {
        match self.check_settings(
            caller,
            course_id,
            false,
            Some(ContractError::CannotUpdateArchivedCourse),
        ) {
            Some(e) => {
                return Err(e);
            },
            None => {},
        }
        let mut course = self.find_course(course_id).unwrap().duplicate();
        course.enrollment_start_ledger = enrollment_start_ledger;
        course.last_updated_ledger = now;
        self.put_course(course_id, course);
        Ok(())
    }

    /// Instructor or admin sets how many ledgers an enrollment stays
    /// completable; `None` removes the expiry.
    pub fn set_enrollment_expiry(
        &mut self,
        now: u32,
        caller: Addr,
        course_id: &Vec<u8>,
        expiry_ledgers: Option<u32>,
    ) -> (r: Result<(), ContractError>)
        requires
            old(self).wf(),
        ensures
            final(self).wf(),
            committed(
                r,
                spec_set_enrollment_expiry(old(self)@, now, caller, course_id@, expiry_ledgers),
                old(self)@,
                final(self)@,
            ),
    {
        match self.check_settings(caller, course_id, true, None) {
            Some(e) => {
                return Err(e);
            },
            None => {},
        }
        let mut course = self.find_course(course_id).unwrap().duplicate();
        course.enrollment_expiry_ledgers = expiry_ledgers;
        course.last_updated_ledger = now;
        self.put_course(course_id, course);
        Ok(())
    }

    /// Instructor or admin sets or clears the course expiry ledger.
    pub fn set_course_expiry(
        &mut self,
        now: u32,
        caller: Addr,
        course_id: &Vec<u8>,
        expires_at_ledger: Option<u32>,
    ) -> (r: Result<(), ContractError>)
        requires
            old(self).wf(),
        ensures
            final(self).wf(),
            committed(
                r,
                spec_set_course_expiry(old(self)@, now, caller, course_id@, expires_at_ledger),
                old(self)@,
                final(self)@,
            ),
    {
        match self.check_settings(
            caller,
            course_id,
            false,
            Some(ContractError::CannotUpdateArchivedCourse),
        ) {
            Some(e) => {
                return Err(e);
            },
            None => {},
        }
        let mut course = self.find_course(course_id).unwrap().duplicate();
        course.expires_at_ledger = expires_at_ledger;
        course.last_updated_ledger = now;
        self.put_course(course_id, course);
        Ok(())
    }

    /// Instructor or admin replaces the content hash of a course that is
    /// not archived.
    pub fn update_content_hash(
        &mut self,
        now: u32,
        caller: Addr,
        course_id: &Vec<u8>,
        content_hash: [u8; 32],
    ) -> (r: Result<(), ContractError>)
        requires
            old(self).wf(),
        ensures
            final(self).wf(),
            committed(
                r,
                spec_update_content_hash(old(self)@, now, caller, course_id@, content_hash@),
                old(self)@,
                final(self)@,
            ),
    {
        match self.check_settings(
            caller,
            course_id,
            true,
            Some(ContractError::ContentHashArchivedCourse),
        ) {
            Some(e) => {
                return Err(e);
            },
            None => {},
        }
        let mut course = self.find_course(course_id).unwrap().duplicate();
        course.content_hash = content_hash;
        course.last_updated_ledger = now;
        self.put_course(course_id, course);
        Ok(())
    }

    /// Instructor or admin sets or removes the certificate issuance limit.
    pub fn set_max_certificates(
        &mut self,
        now: u32,
        caller: Addr,
        course_id: &Vec<u8>,
        max_certs: Option<u32>,
    ) -> (r: Result<(), ContractError>)
        requires
            old(self).wf(),
        ensures
            final(self).wf(),
            committed(
                r,
                spec_set_max_certificates(old(self)@, now, caller, course_id@, max_certs),
                old(self)@,
                final(self)@,
            ),
    {
        match self.check_settings(
            caller,
            course_id,
            false,
            Some(ContractError::MaxCertificatesArchivedCourse),
        ) {
            Some(e) => {
                return Err(e);
            },
            None => {},
        }
        let mut course = self.find_course(course_id).unwrap().duplicate();
        match max_certs {
            Some(limit) => {
                if limit < course.certificates_issued {
                    return Err(ContractError::MaxCertificatesBelowIssued);
                }
            },
            None => {},
        }
        course.max_certificates = max_certs;
        course.last_updated_ledger = now;
        self.put_course(course_id, course);
        Ok(())
    }

    /// Instructor or admin replaces the prerequisite course list.
    pub fn set_prerequisite_courses(
        &mut self,
        now: u32,
        caller: Addr,
        course_id: &Vec<u8>,
        prerequisite_course_ids: &Vec<Vec<u8>>,
    ) -> (r: Result<(), ContractError>)
        requires
            old(self).wf(),
        ensures
            final(self).wf(),
            committed(
                r,
                spec_set_prerequisite_courses(
                    old(self)@,
                    now,
                    caller,
                    course_id@,
                    crate::model::texts(prerequisite_course_ids@),
                ),
                old(self)@,
                final(self)@,
            ),
    {
        match self.check_settings(
            caller,
            course_id,
            true,
            Some(ContractError::CannotUpdateArchivedCourse),
        ) {
            Some(e) => {
                return Err(e);
            },
            None => {},
        }
        let ghost ps = crate::model::texts(prerequisite_course_ids@);
        assert(ps.len() == prerequisite_course_ids.len());
        let mut i: usize = 0;
        while i < prerequisite_course_ids.len()
            invariant
                self.wf(),
                self@ == old(self)@,
                settings_error(self@, caller, course_id@, true, Some(ContractError::CannotUpdateArchivedCourse)) is None,
                i <= prerequisite_course_ids.len(),
                ps.len() == prerequisite_course_ids.len(),
                ps == crate::model::texts(prerequisite_course_ids@),
                prerequisite_error(self@, course_id@, ps, 0) == prerequisite_error(
                    self@,
                    course_id@,
                    ps,
                    i as int,
                ),
            decreases prerequisite_course_ids.len() - i,
        {
            let p = &prerequisite_course_ids[i];
            assert(ps[i as int] == p@);
            if crate::table::bytes_eq(p, course_id) {
                return Err(ContractError::OwnPrerequisite);
            }
            if !self.courses.contains(&Key::of_text(p)) {
                return Err(ContractError::PrerequisiteNotFound);
            }
            i = i + 1;
        }
        let mut course = self.find_course(course_id).unwrap().duplicate();
        course.prerequisite_course_ids = crate::model::copy_texts(prerequisite_course_ids);
        course.last_updated_ledger = now;
        self.put_course(course_id, course);
        Ok(())
    }

    /// Instructor or admin updates price and/or capacity; returns the
    /// course version, bumped when anything changed.
    pub fn update_course(
        &mut self,
        now: u32,
        caller: Addr,
        course_id: &Vec<u8>,
        new_price: Option<i128>,
        new_max_capacity: Option<Option<u32>>,
    ) -> (r: Result<u32, ContractError>)
        requires
            old(self).wf(),
        ensures
            final(self).wf(),
            match spec_update_course(
                old(self)@,
                now,
                caller,
                course_id@,
                new_price,
                new_max_capacity,
            ) {
                Ok((s, v)) => r == Ok::<u32, ContractError>(v) && final(self)@ == s,
                Err(e) => r == Err::<u32, ContractError>(e) && final(self)@ == old(self)@,
            },
    {
        match self.check_settings(
            caller,
            course_id,
            false,
            Some(ContractError::CannotUpdateArchivedCourse),
        ) {
            Some(e) => {
                return Err(e);
            },
            None => {},
        }
        let mut course = self.find_course(course_id).unwrap().duplicate();
        match new_price {
            Some(price) => {
                if price < 0 {
                    return Err(ContractError::PriceNegative);
                }
                if price != 0 && (price < MIN_COURSE_PRICE_STROOPS || price
                    > MAX_COURSE_PRICE_STROOPS) {
                    return Err(ContractError::PriceOutOfRange);
                }
                course.price = price;
            },
            None => {},
        }
        match new_max_capacity {
            Some(capacity) => {
                if capacity == Some(0u32) {
                    return Err(ContractError::MaxCapacityZero);
                }
                course.max_capacity = capacity;
            },
            None => {},
        }
        if new_price.is_none() && new_max_capacity.is_none() {
            return Ok(course.version);
        }
        if course.version == u32::MAX {
            return Err(ContractError::Overflow);
        }
        course.version = course.version + 1;
        course.last_updated_ledger = now;
        let v = course.version;
        self.put_course(course_id, course);
        Ok(v)
    }

    /// The current instructor hands a course to `new_instructor`, with the
    /// admin's co-approval. Enrollments and earned balances stay as they are.
    pub fn transfer_course(
        &mut self,
        now: u32,
        instructor: Addr,
        admin: Addr,
        course_id: &Vec<u8>,
        new_instructor: Addr,
    ) -> (r: Result<(), ContractError>)
        requires
            old(self).wf(),
        ensures
            final(self).wf(),
            committed(
                r,
                spec_transfer_course(old(self)@, now, instructor, admin, course_id@, new_instructor),
                old(self)@,
                final(self)@,
            ),
    {
        let mut course = match self.find_course(course_id) {
            None => {
                return Err(ContractError::CourseNotFound);
            },
            Some(c) => c.duplicate(),
        };
        if instructor != course.instructor {
            return Err(ContractError::Unauthorized);
        }
        match self.check_admin(now, admin) {
            Some(e) => {
                return Err(e);
            },
            None => {},
        }
        if course.status == CourseStatus::Archived {
            return Err(ContractError::CannotTransferArchivedCourse);
        }
        if new_instructor == course.instructor {
            return Err(ContractError::SameInstructor);
        }
        if Self::in_addr_set(&self.frozen_instructors, instructor) || Self::in_addr_set(
            &self.frozen_instructors,
            new_instructor,
        ) {
            return Err(ContractError::InstructorFrozen);
        }
        let pending = course.status == CourseStatus::Pending;
        let previous = course.instructor;
        let old_count = Self::counter(&self.course_counts, previous);
        let new_count = Self::counter(&self.course_counts, new_instructor);
        let old_pending = Self::counter(&self.pending_counts, previous);
        let new_pending = Self::counter(&self.pending_counts, new_instructor);
        if new_count >= self.max_courses {
            return Err(ContractError::MaxCoursesReached);
        }
        if pending && new_pending >= self.max_courses {
            return Err(ContractError::MaxPendingCoursesReached);
        }
        if old_count == 0 || (pending && old_pending == 0) {
            return Err(ContractError::CountUnderflow);
        }
        course.instructor = new_instructor;
        course.last_updated_ledger = now;
        let ghost cv = course@;
        self.courses.set(Key::of_text(course_id), course);
        self.instructor_refs.set(Key::of_text(course_id), new_instructor);
        self.course_counts.set(Key::of_addr(previous), old_count - 1);
        self.course_counts.set(Key::of_addr(new_instructor), new_count + 1);
        if pending {
            self.pending_counts.set(Key::of_addr(previous), old_pending - 1);
            self.pending_counts.set(Key::of_addr(new_instructor), new_pending + 1);
        }
        push_text(&mut self.instructor_courses, Key::of_addr(new_instructor), course_id);
        proof {
            let k = tkey(course_id@);
            assert(catalog(self@) =~= catalog(old(self)@).insert(k, cv));
            assert(catalog(old(self)@)[k] == lookup_course(old(self)@, course_id@)->0);
            lemma_cover_transfer(old(self)@, self@, k, cv, previous);
        }
        Ok(())
    }
}

} // verus!
