//! Properties of the platform that span operations: the course lifecycle,
//! the payment split, access control over time, the two-step handovers and
//! time-locks, certificate revocation, refunds and batch enrollment.
use vstd::prelude::*;
use crate::admin::{pause_listed, spec_freeze_instructor, spec_accept_admin, spec_propose_upgrade, spec_transfer_admin, spec_update_treasury, spec_upgrade_contract};
use crate::certificates::{spec_issue_certificate, bulk_reason, revoke_from, spec_apply_revocation, spec_bulk_revoke, spec_challenge_revocation, spec_revoke_certificate, spec_verify_certificate};
use crate::courses::{spec_transfer_course, spec_approve_course, spec_pause_course, spec_register_course, spec_reject_course, spec_unpause_course};
use crate::enrollment::{batch_error, enrollment_error, has_valid_certificate, spec_re_enroll, base_fee_bps, current_treasury, enroll_from, spec_batch_enroll, spec_charge_and_record, spec_enroll, spec_withdraw_earnings};
use crate::fees::{law_split_conserves_amount, spec_fee_breakdown, spec_risk_flags};
use crate::model::{ContractError, CourseStatus, CourseView, EnrollReceipt, Transfer};
use crate::refunds::{refundable, saturating_dec, archive_refunds, spec_archive_course, spec_process_refund, spec_refund_enrollment};
use crate::state::{ARCHIVE_COOLDOWN_LEDGERS, State, revocations_recorded, catalog, count_of, counts_cover, owned, owned_pending, texts_of, TREASURY_UPDATE_DELAY, admin_check, admin_expired, admin_or_approver_check, balance_of, in_set, is_admin, lookup_course, multi_admin_check, spec_init};
use crate::table::{Addr, KeyView, akey, atkey, pkey, tkey};

verus! {

/// Approval moves a course from Pending to Active.
pub proof fn law_approve_pending_to_active(s: State, now: u32, caller: Addr, course_id: Seq<u8>)
    requires
        spec_approve_course(s, now, caller, course_id) is Ok,
    ensures
        lookup_course(s, course_id) matches Some(c) && c.status == CourseStatus::Pending,
        lookup_course(spec_approve_course(s, now, caller, course_id)->Ok_0, course_id) matches Some(
            c,
        ) && c.status == CourseStatus::Active,
{
}

/// Rejection moves a course from Pending to Rejected.
pub proof fn law_reject_pending_to_rejected(s: State, now: u32, caller: Addr, course_id: Seq<u8>)
    requires
        spec_reject_course(s, now, caller, course_id) is Ok,
    ensures
        lookup_course(s, course_id) matches Some(c) && c.status == CourseStatus::Pending,
        lookup_course(spec_reject_course(s, now, caller, course_id)->Ok_0, course_id) matches Some(
            c,
        ) && c.status == CourseStatus::Rejected,
{
}

/// Pausing moves a course from Active to Paused and keeps every
/// instructor's course list.
pub proof fn law_pause_active_to_paused(s: State, now: u32, caller: Addr, course_id: Seq<u8>)
    requires
        spec_pause_course(s, now, caller, course_id) is Ok,
    ensures
        lookup_course(s, course_id) matches Some(c) && c.status == CourseStatus::Active,
        lookup_course(spec_pause_course(s, now, caller, course_id)->Ok_0, course_id) matches Some(
            c,
        ) && c.status == CourseStatus::Paused,
        spec_pause_course(s, now, caller, course_id)->Ok_0.instructor_courses
            == s.instructor_courses,
{
}

/// Unpausing moves a course from Paused back to Active and keeps every
/// instructor's course list.
pub proof fn law_unpause_paused_to_active(s: State, now: u32, caller: Addr, course_id: Seq<u8>)
    requires
        spec_unpause_course(s, now, caller, course_id) is Ok,
    ensures
        lookup_course(s, course_id) matches Some(c) && c.status == CourseStatus::Paused,
        lookup_course(spec_unpause_course(s, now, caller, course_id)->Ok_0, course_id) matches Some(
            c,
        ) && c.status == CourseStatus::Active,
        spec_unpause_course(s, now, caller, course_id)->Ok_0.instructor_courses
            == s.instructor_courses,
{
}

/// The refunds made while archiving touch neither the course records nor
/// the catalog lists, and change the working copy of the course only in
/// its active count.
proof fn lemma_archive_refunds_frame(
    s: State,
    contract: Addr,
    treasury: Addr,
    c: CourseView,
    course_id: Seq<u8>,
    students: Seq<Addr>,
    i: int,
    count: u32,
    total: i128,
)
    requires
        archive_refunds(s, contract, treasury, c, course_id, students, i, count, total) is Ok,
    ensures
        ({
            let (s2, c2, _) = archive_refunds(
                s,
                contract,
                treasury,
                c,
                course_id,
                students,
                i,
                count,
                total,
            )->Ok_0;
            &&& s2.courses == s.courses
            &&& s2.archived == s.archived
            &&& s2.instructor_courses == s.instructor_courses
            &&& c2 == CourseView { active_enrollments: c2.active_enrollments, ..c }
        }),
    decreases students.len() - i,
{
    if i < 0 || i >= students.len() {
    } else if !crate::refunds::refundable(s, students[i], course_id) {
        lemma_archive_refunds_frame(s, contract, treasury, c, course_id, students, i + 1, count, total);
    } else {
        let e = s.enrollments[atkey(students[i], course_id)];
        let amount = e.platform_amount + e.instructor_amount;
        let (s2, ts) = spec_refund_enrollment(
            s,
            contract,
            treasury,
            c.token,
            c.instructor,
            students[i],
            course_id,
            e.platform_amount,
            e.instructor_amount,
        )->Ok_0;
        let c1 = CourseView {
            active_enrollments: crate::refunds::saturating_dec(c.active_enrollments),
            ..c
        };
        lemma_archive_refunds_frame(
            s2,
            contract,
            treasury,
            c1,
            course_id,
            students,
            i + 1,
            (count + 1) as u32,
            (total + amount) as i128,
        );
    }
}

/// Archiving moves a course from Paused to Archived: it leaves the live
/// records for the archive, and every instructor's course list is kept.
pub proof fn law_archive_paused_to_archived(
    s: State,
    now: u32,
    contract: Addr,
    admin1: Addr,
    admin2: Addr,
    course_id: Seq<u8>,
    students: Option<Seq<Addr>>,
)
    requires
        spec_archive_course(s, now, contract, admin1, admin2, course_id, students) is Ok,
    ensures
        lookup_course(s, course_id) matches Some(c) && c.status == CourseStatus::Paused,
        ({
            let s2 = spec_archive_course(s, now, contract, admin1, admin2, course_id, students)->Ok_0.0;
            &&& !s2.courses.contains_key(tkey(course_id))
            &&& lookup_course(s2, course_id) matches Some(c) && c.status == CourseStatus::Archived
                && c.archived_at_ledger == Some(now) && c.active_enrollments == 0
            &&& s2.instructor_courses == s.instructor_courses
        }),
{
    let c = lookup_course(s, course_id)->0;
    match students {
        Some(list) => {
            lemma_archive_refunds_frame(s, contract, s.treasury->0, c, course_id, list, 0, 0, 0);
        },
        None => {},
    }
}

/// An archived course id cannot be registered again before the archive
/// cooldown has passed.
pub proof fn law_archived_id_cooldown(
    s: State,
    now: u32,
    contract: Addr,
    admin1: Addr,
    admin2: Addr,
    course_id: Seq<u8>,
    students: Option<Seq<Addr>>,
    t: u32,
    instructor: Addr,
    price: i128,
    token: Addr,
    token_decimals: u32,
    platform_fee_pct: u32,
    max_capacity: Option<u32>,
    content_hash: Seq<u8>,
)
    requires
        spec_archive_course(s, now, contract, admin1, admin2, course_id, students) is Ok,
        t < now + ARCHIVE_COOLDOWN_LEDGERS,
    ensures
        spec_register_course(
            spec_archive_course(s, now, contract, admin1, admin2, course_id, students)->Ok_0.0,
            t,
            instructor,
            course_id,
            price,
            token,
            token_decimals,
            platform_fee_pct,
            max_capacity,
            content_hash,
        ) is Err,
{
    law_archive_paused_to_archived(s, now, contract, admin1, admin2, course_id, students);
}

/// The split of a paid enrollment: the student pays the price into the
/// contract; the platform share (forwarded to the treasury) and the
/// instructor share (credited to the instructor's earnings in the course
/// token) add up to it and are not negative; the fee charged is the one
/// the fee preview quotes.
pub proof fn law_enrollment_split(
    s: State,
    now: u32,
    contract: Addr,
    student: Addr,
    course_id: Seq<u8>,
    token_decimals: u32,
)
    requires
        spec_enroll(s, now, contract, student, course_id, token_decimals) is Ok,
        lookup_course(s, course_id) matches Some(c) && c.price > 0,
    ensures
        ({
            let c = lookup_course(s, course_id)->0;
            let (s2, rc) = spec_enroll(s, now, contract, student, course_id, token_decimals)->Ok_0;
            &&& rc.price == c.price
            &&& rc.platform_amount + rc.instructor_amount == c.price
            &&& rc.platform_amount >= 0 && rc.instructor_amount >= 0
            &&& rc.payment == Some(
                Transfer { token: c.token, from: student, to: contract, amount: c.price },
            )
            &&& (rc.platform_amount > 0 ==> rc.fee_transfer == Some(
                Transfer {
                    token: c.token,
                    from: contract,
                    to: current_treasury(s, now),
                    amount: rc.platform_amount,
                },
            ))
            &&& balance_of(s2.earnings, pkey(c.instructor, c.token)) == balance_of(
                s.earnings,
                pkey(c.instructor, c.token),
            ) + rc.instructor_amount
            &&& rc.breakdown == Some(
                spec_fee_breakdown(
                    base_fee_bps(s, c.token),
                    s.risk_enabled,
                    s.risk_config,
                    c.price,
                    spec_risk_flags().0,
                    spec_risk_flags().1,
                )->Ok_0,
            )
        }),
{
    let c = lookup_course(s, course_id)->0;
    law_split_conserves_amount(
        base_fee_bps(s, c.token),
        s.risk_enabled,
        s.risk_config,
        c.price,
        spec_risk_flags().0,
        spec_risk_flags().1,
    );
}

/// A blocked student cannot enroll, and nobody can while the platform is
/// paused.
pub proof fn law_enrollment_refusals(
    s: State,
    now: u32,
    contract: Addr,
    student: Addr,
    course_id: Seq<u8>,
    token_decimals: u32,
)
    ensures
        in_set(s.blocked_students, student) ==> spec_enroll(
            s,
            now,
            contract,
            student,
            course_id,
            token_decimals,
        ) is Err,
        s.platform_paused ==> spec_enroll(s, now, contract, student, course_id, token_decimals)
            == Err::<(State, EnrollReceipt), ContractError>(ContractError::PlatformPaused),
{
}

/// Once the admin role has expired, the admin is refused everything that
/// needs an admin, alone or with the secondary admin; approvers, who do
/// not expire, keep their rights.
pub proof fn law_expired_admin_refused(s: State, now: u32, a: Addr, a1: Addr, a2: Addr, approver: Addr)
    requires
        admin_expired(s, now),
    ensures
        is_admin(s, a) ==> admin_check(s, now, a) == Some(ContractError::AdminExpired),
        is_admin(s, a) ==> admin_or_approver_check(s, now, a) == Some(ContractError::AdminExpired),
        multi_admin_check(s, now, a1, a2) is Some,
        in_set(s.approvers, approver) && !is_admin(s, approver) ==> admin_or_approver_check(
            s,
            now,
            approver,
        ) is None,
{
}

/// The admin handover takes two steps: once both admins have nominated a
/// pair, that pair, and no other, can accept; after acceptance the pair
/// are the admins, nothing is pending and the admin role has no expiry.
pub proof fn law_admin_handover(
    s: State,
    now: u32,
    admin1: Addr,
    admin2: Addr,
    new_admin: Addr,
    new_secondary_admin: Addr,
    x: Addr,
    y: Addr,
)
    requires
        spec_transfer_admin(s, now, admin1, admin2, new_admin, new_secondary_admin) is Ok,
    ensures
        ({
            let s1 = spec_transfer_admin(s, now, admin1, admin2, new_admin, new_secondary_admin)->Ok_0;
            let s2 = spec_accept_admin(s1, new_admin, new_secondary_admin);
            &&& s1.admin == s.admin && s1.secondary_admin == s.secondary_admin
            &&& s2 is Ok
            &&& s2->Ok_0.admin == Some(new_admin)
            &&& s2->Ok_0.secondary_admin == Some(new_secondary_admin)
            &&& s2->Ok_0.pending_admin is None && s2->Ok_0.pending_secondary_admin is None
            &&& s2->Ok_0.admin_expires_at is None
            &&& (x != new_admin || y != new_secondary_admin) ==> spec_accept_admin(s1, x, y)
                == Err::<State, ContractError>(ContractError::NotPendingAdmins)
        }),
{
}

/// A treasury change is delayed: fees keep going to the current treasury
/// for `TREASURY_UPDATE_DELAY` ledgers, then to the new one.
pub proof fn law_treasury_change_delayed(
    s: State,
    now: u32,
    contract: Addr,
    admin1: Addr,
    admin2: Addr,
    new_treasury: Addr,
    t: u32,
)
    requires
        spec_update_treasury(s, now, contract, admin1, admin2, new_treasury) is Ok,
    ensures
        ({
            let s1 = spec_update_treasury(s, now, contract, admin1, admin2, new_treasury)->Ok_0;
            &&& t < now + TREASURY_UPDATE_DELAY ==> current_treasury(s1, t) == s.treasury->0
            &&& t >= now + TREASURY_UPDATE_DELAY ==> current_treasury(s1, t) == new_treasury
        }),
{
}

/// A proposed upgrade can be executed exactly from the end of its
/// time-lock on, and it installs the proposed code.
pub proof fn law_upgrade_timelock(
    s: State,
    now: u32,
    admin1: Addr,
    admin2: Addr,
    new_wasm_hash: [u8; 32],
    t: u32,
)
    requires
        spec_propose_upgrade(s, now, admin1, admin2, new_wasm_hash) is Ok,
        multi_admin_check(
            spec_propose_upgrade(s, now, admin1, admin2, new_wasm_hash)->Ok_0,
            t,
            admin1,
            admin2,
        ) is None,
    ensures
        ({
            let s1 = spec_propose_upgrade(s, now, admin1, admin2, new_wasm_hash)->Ok_0;
            &&& s1.pending_upgrade matches Some(p) && p.new_wasm_hash == new_wasm_hash
            &&& t < now + s.upgrade_timelock ==> spec_upgrade_contract(s1, t, admin1, admin2)
                == Err::<State, ContractError>(ContractError::UpgradeTimelockActive)
            &&& t >= now + s.upgrade_timelock ==> spec_upgrade_contract(s1, t, admin1, admin2) is Ok
        }),
{
}

/// A revoked certificate stays valid while the revocation can be
/// challenged (unless it has expired) and is invalid from the deadline on; a second revocation is
/// refused; the holder's challenge within the period restores the
/// certificate to what it was (unrevoked certificates carry no revocation
/// record, as in every well-formed state).
pub proof fn law_revocation_challenge_window(
    s: State,
    now: u32,
    admin: Addr,
    certificate_id: Seq<u8>,
    reason: Seq<u8>,
    t: u32,
    reason2: Seq<u8>,
)
    requires
        revocations_recorded(s),
        spec_revoke_certificate(s, now, admin, certificate_id, reason) is Ok,
    ensures
        ({
            let s1 = spec_revoke_certificate(s, now, admin, certificate_id, reason)->Ok_0;
            let holder = s.certificates[tkey(certificate_id)].student;
            &&& spec_verify_certificate(s1, t, certificate_id) == (t < now + s.challenge_period
                && match s.certificates[tkey(certificate_id)].expires_at_ledger {
                Some(x) => t < x,
                None => true,
            })
            &&& admin_check(s1, t, admin) is None ==> spec_revoke_certificate(
                s1,
                t,
                admin,
                certificate_id,
                reason2,
            ) == Err::<State, ContractError>(ContractError::AlreadyRevoked)
            &&& t >= now + s.challenge_period ==> spec_challenge_revocation(
                s1,
                t,
                holder,
                certificate_id,
            ) == Err::<State, ContractError>(ContractError::ChallengeExpired)
            &&& t < now + s.challenge_period ==> spec_challenge_revocation(
                s1,
                t,
                holder,
                certificate_id,
            ) is Ok
            &&& t < now + s.challenge_period
                ==> spec_challenge_revocation(s1, t, holder, certificate_id)->Ok_0.certificates
                == s.certificates
        }),
{
    let k = tkey(certificate_id);
    let s1 = spec_revoke_certificate(s, now, admin, certificate_id, reason)->Ok_0;
    if t < now + s.challenge_period {
        let s2 = spec_challenge_revocation(s1, t, s.certificates[k].student, certificate_id)->Ok_0;
        assert(s2.certificates =~= s.certificates);
    }
}

/// A withdrawal never takes more than the balance, and leaves the balance
/// reduced by exactly what is paid out.
pub proof fn law_withdraw_bounded(s: State, contract: Addr, instructor: Addr, token: Addr, amount: i128)
    requires
        spec_withdraw_earnings(s, contract, instructor, token, amount) is Ok,
        balance_of(s.earnings, pkey(instructor, token)) >= 0,
    ensures
        ({
            let (s2, t) = spec_withdraw_earnings(s, contract, instructor, token, amount)->Ok_0;
            let k = pkey(instructor, token);
            match t {
                Some(tr) => {
                    &&& 0 < tr.amount <= balance_of(s.earnings, k)
                    &&& tr.to == instructor && tr.from == contract && tr.token == token
                    &&& balance_of(s2.earnings, k) == balance_of(s.earnings, k) - tr.amount
                },
                None => s2 == s,
            }
        }),
{
}

/// What a list of transfers pays in all.
pub open spec fn transfer_total(ts: Seq<Transfer>) -> int
    decreases ts.len(),
{
    if ts.len() == 0 {
        0
    } else {
        transfer_total(ts.drop_last()) + ts.last().amount
    }
}

/// An approved refund pays the student back both shares of what the
/// enrollment charged, removes the enrollment and closes the request.
pub proof fn law_refund_returns_payment(
    s: State,
    now: u32,
    contract: Addr,
    admin: Addr,
    student: Addr,
    course_id: Seq<u8>,
)
    requires
        spec_process_refund(s, now, contract, admin, student, course_id, true) is Ok,
    ensures
        ({
            let (s2, ts) = spec_process_refund(s, now, contract, admin, student, course_id, true)->Ok_0;
            let e = s.enrollments[atkey(student, course_id)];
            &&& !s2.enrollments.contains_key(atkey(student, course_id))
            &&& s2.refund_requests[atkey(student, course_id)].status
                == crate::model::RefundStatus::Approved
            &&& forall|j: int| 0 <= j < ts.len() ==> (#[trigger] ts[j]).to == student
            &&& transfer_total(ts) == (if e.platform_amount > 0 {
                e.platform_amount as int
            } else {
                0
            }) + (if e.instructor_amount > 0 {
                e.instructor_amount as int
            } else {
                0
            })
        }),
{
    let e = s.enrollments[atkey(student, course_id)];
    let (s2, ts) = spec_process_refund(s, now, contract, admin, student, course_id, true)->Ok_0;
    reveal_with_fuel(transfer_total, 3);
    if e.platform_amount > 0 && e.instructor_amount > 0 {
        assert(ts.drop_last().len() == 1);
        assert(ts.drop_last().drop_last().len() == 0);
    } else if e.platform_amount > 0 || e.instructor_amount > 0 {
        assert(ts.drop_last().len() == 0);
    }
}

/// The contract is initialised once: any further initialisation is
/// refused.
pub proof fn law_init_once(
    s: State,
    now: u32,
    contract: Addr,
    admin: Addr,
    secondary_admin: Addr,
    treasury: Addr,
    fee: u32,
    max_courses: u32,
    window: u32,
    period: u32,
    now2: u32,
    contract2: Addr,
    admin2: Addr,
    secondary_admin2: Addr,
    treasury2: Addr,
    fee2: u32,
    max_courses2: u32,
    window2: u32,
    period2: u32,
)
    requires
        spec_init(s, now, contract, admin, secondary_admin, treasury, fee, max_courses, window, period)
            is Ok,
    ensures
        spec_init(
            spec_init(
                s,
                now,
                contract,
                admin,
                secondary_admin,
                treasury,
                fee,
                max_courses,
                window,
                period,
            )->Ok_0,
            now2,
            contract2,
            admin2,
            secondary_admin2,
            treasury2,
            fee2,
            max_courses2,
            window2,
            period2,
        ) == Err::<State, ContractError>(ContractError::AlreadyInitialized),
{
}

/// A successful enrollment keeps every enrollment that existed before it.
proof fn lemma_enroll_keeps_enrollments(
    s: State,
    now: u32,
    contract: Addr,
    student: Addr,
    course_id: Seq<u8>,
    token_decimals: u32,
)
    requires
        spec_enroll(s, now, contract, student, course_id, token_decimals) is Ok,
    ensures
        ({
            let s2 = spec_enroll(s, now, contract, student, course_id, token_decimals)->Ok_0.0;
            &&& s2.enrollments.contains_key(atkey(student, course_id))
            &&& forall|k| s.enrollments.contains_key(k) ==> #[trigger] s2.enrollments.contains_key(k)
        }),
{
}

/// Enrolling in `ids[i..]` one after the other enrolls the student in each
/// of them and keeps every earlier enrollment.
proof fn lemma_enroll_from_enrolls_all(
    s: State,
    now: u32,
    contract: Addr,
    student: Addr,
    ids: Seq<Seq<u8>>,
    decimals: Seq<u32>,
    i: int,
)
    requires
        0 <= i,
        enroll_from(s, now, contract, student, ids, decimals, i) is Ok,
    ensures
        ({
            let (s2, rs) = enroll_from(s, now, contract, student, ids, decimals, i)->Ok_0;
            &&& forall|j: int|
                i <= j < ids.len() ==> s2.enrollments.contains_key(
                    atkey(student, #[trigger] ids[j]),
                )
            &&& forall|k| s.enrollments.contains_key(k) ==> #[trigger] s2.enrollments.contains_key(k)
            &&& rs.len() == if i < ids.len() {
                ids.len() - i
            } else {
                0
            }
        }),
    decreases ids.len() - i,
{
    if i < ids.len() {
        lemma_enroll_keeps_enrollments(s, now, contract, student, ids[i], decimals[i]);
        let (s1, rc) = spec_enroll(s, now, contract, student, ids[i], decimals[i])->Ok_0;
        lemma_enroll_from_enrolls_all(s1, now, contract, student, ids, decimals, i + 1);
    }
}

/// A batch enrollment is all or nothing: when it succeeds the student is
/// enrolled in every listed course, with one receipt per course.
pub proof fn law_batch_enroll_all(
    s: State,
    now: u32,
    contract: Addr,
    student: Addr,
    ids: Seq<Seq<u8>>,
    decimals: Seq<u32>,
)
    requires
        spec_batch_enroll(s, now, contract, student, ids, decimals) is Ok,
    ensures
        ({
            let (s2, rs) = spec_batch_enroll(s, now, contract, student, ids, decimals)->Ok_0;
            &&& rs.len() == ids.len()
            &&& forall|j: int|
                0 <= j < ids.len() ==> s2.enrollments.contains_key(atkey(student, #[trigger] ids[j]))
        }),
{
    lemma_enroll_from_enrolls_all(s, now, contract, student, ids, decimals, 0);
}

/// A free course charges nothing: no payment, no fee transfer, nothing
/// recorded as paid or credited.
pub proof fn law_free_course_no_payment(
    s: State,
    now: u32,
    contract: Addr,
    student: Addr,
    course_id: Seq<u8>,
    token_decimals: u32,
)
    requires
        spec_enroll(s, now, contract, student, course_id, token_decimals) is Ok,
        lookup_course(s, course_id) matches Some(c) && c.price == 0,
    ensures
        ({
            let (s2, rc) = spec_enroll(s, now, contract, student, course_id, token_decimals)->Ok_0;
            &&& rc.payment is None && rc.fee_transfer is None
            &&& rc.platform_amount == 0 && rc.instructor_amount == 0
            &&& s2.enrollments[atkey(student, course_id)].amount_paid == 0
            &&& s2.earnings == s.earnings
        }),
{
}

/// The sensitive operations need both admins: whenever one succeeds, its
/// two signers are the admin and the secondary admin.
pub proof fn law_multi_admin_operations(
    s: State,
    now: u32,
    contract: Addr,
    admin1: Addr,
    admin2: Addr,
    course_id: Seq<u8>,
    students: Option<Seq<Addr>>,
    new_treasury: Addr,
    new_admin: Addr,
    new_secondary_admin: Addr,
    new_wasm_hash: [u8; 32],
)
    ensures
        ({
            let pair = (Some(admin1) == s.admin && Some(admin2) == s.secondary_admin) || (Some(
                admin1,
            ) == s.secondary_admin && Some(admin2) == s.admin);
            &&& spec_archive_course(s, now, contract, admin1, admin2, course_id, students) is Ok
                ==> pair
            &&& spec_update_treasury(s, now, contract, admin1, admin2, new_treasury) is Ok ==> pair
            &&& spec_transfer_admin(s, now, admin1, admin2, new_admin, new_secondary_admin) is Ok
                ==> pair
            &&& spec_propose_upgrade(s, now, admin1, admin2, new_wasm_hash) is Ok ==> pair
            &&& spec_upgrade_contract(s, now, admin1, admin2) is Ok ==> pair
        }),
{
}

/// Archiving is permanent: an archived course can no longer be approved,
/// rejected, paused or unpaused.
pub proof fn law_archived_is_final(
    s: State,
    now: u32,
    contract: Addr,
    admin1: Addr,
    admin2: Addr,
    course_id: Seq<u8>,
    students: Option<Seq<Addr>>,
    t: u32,
    caller: Addr,
)
    requires
        spec_archive_course(s, now, contract, admin1, admin2, course_id, students) is Ok,
    ensures
        ({
            let s2 = spec_archive_course(s, now, contract, admin1, admin2, course_id, students)->Ok_0.0;
            &&& spec_approve_course(s2, t, caller, course_id) is Err
            &&& spec_reject_course(s2, t, caller, course_id) is Err
            &&& spec_pause_course(s2, t, caller, course_id) is Err
            &&& spec_unpause_course(s2, t, caller, course_id) is Err
        }),
{
    law_archive_paused_to_archived(s, now, contract, admin1, admin2, course_id, students);
}

/// Whether course key `k` is named in `ids[i..]`.
pub open spec fn listed_from(ids: Seq<Seq<u8>>, i: int, k: KeyView) -> bool {
    exists|j: int| i <= j < ids.len() && #[trigger] tkey(ids[j]) == k
}

/// A course record as freezing leaves an Active course: Paused, updated at `now`.
pub open spec fn paused_at(c: CourseView, now: u32) -> CourseView {
    CourseView { status: CourseStatus::Paused, last_updated_ledger: now, ..c }
}

/// Pausing the listed courses pauses exactly the listed Active ones, once,
/// and leaves every other record as it was.
proof fn lemma_pause_listed(courses: Map<KeyView, CourseView>, ids: Seq<Seq<u8>>, i: int, now: u32)
    requires
        0 <= i <= ids.len(),
    ensures
        pause_listed(courses, ids, i, now).dom() == courses.dom(),
        forall|k: KeyView| #[trigger]
            courses.contains_key(k) ==> pause_listed(courses, ids, i, now)[k] == if listed_from(
                ids,
                i,
                k,
            ) && courses[k].status == CourseStatus::Active {
                paused_at(courses[k], now)
            } else {
                courses[k]
            },
    decreases ids.len() - i,
{
    if i < ids.len() {
        let k0 = tkey(ids[i]);
        let next = if courses.contains_key(k0) && courses[k0].status == CourseStatus::Active {
            courses.insert(k0, paused_at(courses[k0], now))
        } else {
            courses
        };
        lemma_pause_listed(next, ids, i + 1, now);
        assert(next.dom() =~= courses.dom());
        assert forall|k: KeyView| #[trigger] courses.contains_key(k) implies pause_listed(
            courses,
            ids,
            i,
            now,
        )[k] == if listed_from(ids, i, k) && courses[k].status == CourseStatus::Active {
            paused_at(courses[k], now)
        } else {
            courses[k]
        } by {
            if k == k0 {
                assert(listed_from(ids, i, k)) by {
                    assert(tkey(ids[i]) == k);
                }
            } else {
                if listed_from(ids, i, k) {
                    let j = choose|j: int| i <= j < ids.len() && #[trigger] tkey(ids[j]) == k;
                    assert(j != i);
                    assert(listed_from(ids, i + 1, k));
                }
                if listed_from(ids, i + 1, k) {
                    let j = choose|j: int| i + 1 <= j < ids.len() && #[trigger] tkey(ids[j]) == k;
                    assert(listed_from(ids, i, k));
                }
            }
        }
    } else {
        assert forall|k: KeyView| #[trigger] courses.contains_key(k) implies !listed_from(ids, i, k) by {}
    }
}

/// Freezing an instructor flags the instructor and pauses exactly those of
/// the instructor's listed courses that were Active; every other course
/// record, and the set of courses, stays as it was.
pub proof fn law_freeze_pauses_active_courses(s: State, now: u32, admin: Addr, instructor: Addr)
    requires
        spec_freeze_instructor(s, now, admin, instructor) is Ok,
    ensures
        ({
            let s1 = spec_freeze_instructor(s, now, admin, instructor)->Ok_0;
            let ids = texts_of(s.instructor_courses, akey(instructor));
            &&& in_set(s1.frozen_instructors, instructor)
            &&& s1.courses.dom() == s.courses.dom()
            &&& forall|k: KeyView| #[trigger]
                s.courses.contains_key(k) ==> s1.courses[k] == if listed_from(ids, 0, k)
                    && s.courses[k].status == CourseStatus::Active {
                    paused_at(s.courses[k], now)
                } else {
                    s.courses[k]
                }
        }),
{
    lemma_pause_listed(s.courses, texts_of(s.instructor_courses, akey(instructor)), 0, now);
}

/// The course keys named in `ids[i..]`.
pub open spec fn listed_keys(ids: Seq<Seq<u8>>, i: int) -> Set<KeyView> {
    Set::new(|k: KeyView| listed_from(ids, i, k))
}

/// Whether certificate `k` is named in `ids[i..]` and not yet revoked in `s`.
pub open spec fn awaits_revocation(s: State, ids: Seq<Seq<u8>>, i: int, k: KeyView) -> bool {
    listed_from(ids, i, k) && s.certificates.contains_key(k) && !s.certificates[k].revoked
}

/// The distinct certificates named in `ids[i..]` that are not yet revoked.
pub open spec fn unrevoked_listed(s: State, ids: Seq<Seq<u8>>, i: int) -> Set<KeyView> {
    listed_keys(ids, i).filter(|k: KeyView| s.certificates.contains_key(k) && !s.certificates[k].revoked)
}

proof fn lemma_listed_keys_finite(ids: Seq<Seq<u8>>, i: int)
    requires
        0 <= i <= ids.len(),
    ensures
        listed_keys(ids, i).finite(),
    decreases ids.len() - i,
{
    if i < ids.len() {
        lemma_listed_keys_finite(ids, i + 1);
        assert forall|k: KeyView| #[trigger] listed_keys(ids, i).contains(k) implies listed_keys(ids, i + 1).insert(
            tkey(ids[i]),
        ).contains(k) by {
            let j = choose|j: int| i <= j < ids.len() && #[trigger] tkey(ids[j]) == k;
            if j != i {
                assert(listed_from(ids, i + 1, k));
            }
        }
        assert forall|k: KeyView| #[trigger] listed_keys(ids, i + 1).insert(tkey(ids[i])).contains(k) implies listed_keys(ids, i).contains(k) by {
            if k == tkey(ids[i]) {
                assert(listed_from(ids, i, k));
            } else {
                let j = choose|j: int| i + 1 <= j < ids.len() && #[trigger] tkey(ids[j]) == k;
                assert(listed_from(ids, i, k));
            }
        }
        assert(listed_keys(ids, i) =~= listed_keys(ids, i + 1).insert(tkey(ids[i])));
    } else {
        assert(listed_keys(ids, i) =~= Set::<KeyView>::empty());
    }
}

#[verifier::spinoff_prover]
#[verifier::rlimit(40)]
proof fn lemma_revoke_from(s: State, now: u32, admin: Addr, ids: Seq<Seq<u8>>, i: int, count: u32)
    requires
        0 <= i <= ids.len(),
        revoke_from(s, now, admin, ids, i, count) is Ok,
    ensures
        ({
            let (s1, n) = revoke_from(s, now, admin, ids, i, count)->Ok_0;
            &&& s1 == State { certificates: s1.certificates, ..s }
            &&& s1.certificates.dom() == s.certificates.dom()
            &&& forall|k: KeyView| #[trigger]
                listed_from(ids, i, k) ==> s.certificates.contains_key(k) && s1.certificates[k].revoked
            &&& forall|k: KeyView| #[trigger]
                s.certificates.contains_key(k) && !awaits_revocation(s, ids, i, k) ==> s1.certificates[k]
                    == s.certificates[k]
            &&& forall|k: KeyView| #[trigger]
                awaits_revocation(s, ids, i, k) ==> s1.certificates[k].revoked_by == Some(admin)
                    && s1.certificates[k].revocation_reason == Some(bulk_reason())
            &&& unrevoked_listed(s, ids, i).finite()
            &&& n == count + unrevoked_listed(s, ids, i).len()
        }),
    decreases ids.len() - i,
{
    lemma_listed_keys_finite(ids, i);
    if i == ids.len() {
        assert(unrevoked_listed(s, ids, i) =~= Set::<KeyView>::empty());
        assert forall|k: KeyView| #[trigger] listed_from(ids, i, k) implies false by {}
        assert forall|k: KeyView| #[trigger] awaits_revocation(s, ids, i, k) implies false by {}
    } else {
        let k0 = tkey(ids[i]);
        let (s2, fresh) = spec_apply_revocation(s, now, admin, ids[i], bulk_reason())->Ok_0;
        let next = if fresh {
            (count + 1) as u32
        } else {
            count
        };
        lemma_revoke_from(s2, now, admin, ids, i + 1, next);
        lemma_listed_keys_finite(ids, i + 1);
        assert(listed_from(ids, i, k0)) by {
            assert(tkey(ids[i]) == k0);
        }
        assert forall|k: KeyView| k != k0 implies (#[trigger] listed_from(ids, i, k) <==> listed_from(
            ids,
            i + 1,
            k,
        )) by {
            if listed_from(ids, i, k) {
                let j = choose|j: int| i <= j < ids.len() && #[trigger] tkey(ids[j]) == k;
                assert(listed_from(ids, i + 1, k));
            }
            if listed_from(ids, i + 1, k) {
                let j = choose|j: int| i + 1 <= j < ids.len() && #[trigger] tkey(ids[j]) == k;
                assert(listed_from(ids, i, k));
            }
        }
        let (s1, n) = revoke_from(s2, now, admin, ids, i + 1, next)->Ok_0;
        assert(revoke_from(s, now, admin, ids, i, count) == revoke_from(s2, now, admin, ids, i + 1, next));
        assert(s2 == State { certificates: s2.certificates, ..s });
        assert(s1 == State { certificates: s1.certificates, ..s });
        assert(s1.certificates.dom() == s.certificates.dom());
        assert forall|k: KeyView| #[trigger] listed_from(ids, i, k) implies s.certificates.contains_key(k)
            && s1.certificates[k].revoked by {
            if k != k0 {
                assert(listed_from(ids, i + 1, k));
            } else if !listed_from(ids, i + 1, k) {
                assert(!awaits_revocation(s2, ids, i + 1, k));
            }
        }
        assert forall|k: KeyView| #[trigger] s.certificates.contains_key(k) && !awaits_revocation(s, ids, i, k)
            implies s1.certificates[k] == s.certificates[k] by {
            if k != k0 {
                assert(listed_from(ids, i, k) == listed_from(ids, i + 1, k));
                assert(!awaits_revocation(s2, ids, i + 1, k));
            } else {
                assert(!awaits_revocation(s2, ids, i + 1, k));
            }
        }
        assert forall|k: KeyView| #[trigger] awaits_revocation(s, ids, i, k) implies s1.certificates[k].revoked_by
            == Some(admin) && s1.certificates[k].revocation_reason == Some(bulk_reason()) by {
            if k != k0 {
                assert(listed_from(ids, i, k) == listed_from(ids, i + 1, k));
                assert(awaits_revocation(s2, ids, i + 1, k));
            } else {
                assert(!awaits_revocation(s2, ids, i + 1, k));
            }
        }
        if fresh {
            assert(unrevoked_listed(s, ids, i) =~= unrevoked_listed(s2, ids, i + 1).insert(k0));
            assert(!unrevoked_listed(s2, ids, i + 1).contains(k0));
        } else {
            assert(unrevoked_listed(s, ids, i) =~= unrevoked_listed(s2, ids, i + 1));
        }
        assert(n == count + unrevoked_listed(s, ids, i).len());
    }
}

/// A course-wide revocation revokes every certificate issued for the
/// course, records the bulk reason and the admin on each one it newly
/// revokes, leaves already revoked ones and everything else untouched, and
/// returns the number of distinct certificates it newly revoked.
pub proof fn law_bulk_revoke(s: State, now: u32, admin: Addr, course_id: Seq<u8>)
    requires
        spec_bulk_revoke(s, now, admin, course_id) is Ok,
    ensures
        ({
            let (s1, n) = spec_bulk_revoke(s, now, admin, course_id)->Ok_0;
            let ids = texts_of(s.course_certificates, tkey(course_id));
            &&& s1 == State { certificates: s1.certificates, ..s }
            &&& s1.certificates.dom() == s.certificates.dom()
            &&& forall|k: KeyView| #[trigger]
                listed_from(ids, 0, k) ==> s.certificates.contains_key(k) && s1.certificates[k].revoked
            &&& forall|k: KeyView| #[trigger]
                s.certificates.contains_key(k) && !awaits_revocation(s, ids, 0, k) ==> s1.certificates[k]
                    == s.certificates[k]
            &&& forall|k: KeyView| #[trigger]
                awaits_revocation(s, ids, 0, k) ==> s1.certificates[k].revoked_by == Some(admin)
                    && s1.certificates[k].revocation_reason == Some(bulk_reason())
            &&& unrevoked_listed(s, ids, 0).finite()
            &&& n == unrevoked_listed(s, ids, 0).len()
        }),
{
    lemma_revoke_from(s, now, admin, texts_of(s.course_certificates, tkey(course_id)), 0, 0);
}

/// A course in a covered catalog counts against its instructor: both the
/// course counter and, for a Pending course, the pending counter are
/// positive.
proof fn lemma_counted(s: State, course_id: Seq<u8>)
    requires
        counts_cover(s),
        lookup_course(s, course_id) is Some,
    ensures
        count_of(s.course_counts, lookup_course(s, course_id)->0.instructor) > 0,
        lookup_course(s, course_id)->0.status == CourseStatus::Pending ==> count_of(
            s.pending_counts,
            lookup_course(s, course_id)->0.instructor,
        ) > 0,
{
    let m = catalog(s);
    let k = tkey(course_id);
    let c = lookup_course(s, course_id)->0;
    assert(m.contains_key(k) && m[k] == c);
    let a = c.instructor;
    m.dom().lemma_len_filter(|x: KeyView| m[x].instructor == a);
    m.dom().lemma_len_filter(|x: KeyView| m[x].instructor == a && m[x].status == CourseStatus::Pending);
    assert(owned(m, a).contains(k));
    vstd::set_lib::lemma_set_empty_equivalency_len(owned(m, a));
    assert(count_of(s.course_counts, a) >= owned(m, a).len());
    if c.status == CourseStatus::Pending {
        assert(owned_pending(m, a).contains(k));
        vstd::set_lib::lemma_set_empty_equivalency_len(owned_pending(m, a));
        assert(count_of(s.pending_counts, a) >= owned_pending(m, a).len());
    }
}

/// On a state whose counters cover every instructor's courses (as every
/// reachable platform state's do), neither approving nor transferring a
/// course can run a counter below zero.
pub proof fn law_counters_never_underflow(
    s: State,
    now: u32,
    caller: Addr,
    instructor: Addr,
    admin: Addr,
    course_id: Seq<u8>,
    new_instructor: Addr,
)
    requires
        counts_cover(s),
    ensures
        spec_approve_course(s, now, caller, course_id) != Err::<State, ContractError>(
            ContractError::CountUnderflow,
        ),
        spec_transfer_course(s, now, instructor, admin, course_id, new_instructor) != Err::<
            State,
            ContractError,
        >(ContractError::CountUnderflow),
{
    if lookup_course(s, course_id) is Some {
        lemma_counted(s, course_id);
    }
}

/// An approved refund pays back the instructor share out of the
/// instructor's earnings: both the per-token balance and the all-token
/// total drop by exactly that share, and the enrollment is gone.
pub proof fn law_refund_debits_instructor(
    s: State,
    now: u32,
    contract: Addr,
    admin: Addr,
    student: Addr,
    course_id: Seq<u8>,
)
    requires
        spec_process_refund(s, now, contract, admin, student, course_id, true) is Ok,
    ensures
        ({
            let s1 = spec_process_refund(s, now, contract, admin, student, course_id, true)->Ok_0.0;
            let e = s.enrollments[atkey(student, course_id)];
            let c = lookup_course(s, course_id)->0;
            &&& s.enrollments.contains_key(atkey(student, course_id))
            &&& !s1.enrollments.contains_key(atkey(student, course_id))
            &&& e.instructor_amount > 0 ==> balance_of(s1.total_earnings, akey(c.instructor))
                == balance_of(s.total_earnings, akey(c.instructor)) - e.instructor_amount
            &&& e.instructor_amount > 0 ==> balance_of(s1.earnings, pkey(c.instructor, c.token))
                == balance_of(s.earnings, pkey(c.instructor, c.token)) - e.instructor_amount
            &&& e.instructor_amount <= 0 ==> s1.total_earnings == s.total_earnings && s1.earnings
                == s.earnings
        }),
{
}

/// The course ids in `ids[i..]` each pass every check of a first enrollment
/// on `s` when the batch checks pass from `i` on.
proof fn lemma_batch_checked(
    s: State,
    now: u32,
    student: Addr,
    ids: Seq<Seq<u8>>,
    decimals: Seq<u32>,
    i: int,
)
    requires
        0 <= i <= ids.len(),
        batch_error(s, now, student, ids, decimals, i) is None,
    ensures
        forall|j: int| i <= j < ids.len() ==> #[trigger] enrollment_error(s, now, student, ids[j], decimals[j]) is None,
    decreases ids.len() - i,
{
    if i < ids.len() {
        lemma_batch_checked(s, now, student, ids, decimals, i + 1);
    }
}

/// Whether the student holds a certificate for the course that exists and
/// is not revoked: the enrollment records an issued certificate whose
/// record stands unrevoked.
pub open spec fn holds_certificate(s: State, student: Addr, course_id: Seq<u8>) -> bool {
    let k = atkey(student, course_id);
    &&& s.enrollments.contains_key(k)
    &&& s.enrollments[k].certificate_issued
    &&& s.enrollments[k].certificate_id is Some
    &&& s.certificates.contains_key(tkey(s.enrollments[k].certificate_id->0))
    &&& !s.certificates[tkey(s.enrollments[k].certificate_id->0)].revoked
}

/// Whether the course exists and the student holds an unrevoked
/// certificate for each of its prerequisites.
pub open spec fn prerequisites_held(s: State, student: Addr, course_id: Seq<u8>) -> bool {
    &&& lookup_course(s, course_id) is Some
    &&& forall|p: int|
        0 <= p < lookup_course(s, course_id)->0.prerequisite_course_ids.len() ==> holds_certificate(
            s,
            student,
            #[trigger] lookup_course(s, course_id)->0.prerequisite_course_ids[p],
        )
}

proof fn lemma_checked_holds(s: State, now: u32, student: Addr, course_id: Seq<u8>, decimals: u32)
    requires
        enrollment_error(s, now, student, course_id, decimals) is None,
    ensures
        prerequisites_held(s, student, course_id),
{
    let ps = lookup_course(s, course_id)->0.prerequisite_course_ids;
    assert forall|p: int| 0 <= p < ps.len() implies holds_certificate(s, student, #[trigger] ps[p]) by {
        assert(has_valid_certificate(s, student, ps[p]));
    }
}

/// An enrollment, single or in a batch, succeeds only for a student who
/// holds an unrevoked certificate for every prerequisite of each course.
pub proof fn law_enrollment_needs_prerequisites(
    s: State,
    now: u32,
    contract: Addr,
    student: Addr,
    course_id: Seq<u8>,
    decimals: u32,
    ids: Seq<Seq<u8>>,
    batch_decimals: Seq<u32>,
)
    ensures
        spec_enroll(s, now, contract, student, course_id, decimals) is Ok ==> prerequisites_held(
            s,
            student,
            course_id,
        ),
        spec_batch_enroll(s, now, contract, student, ids, batch_decimals) is Ok ==> forall|j: int|
            0 <= j < ids.len() ==> prerequisites_held(s, student, #[trigger] ids[j]),
{
    if spec_enroll(s, now, contract, student, course_id, decimals) is Ok {
        lemma_checked_holds(s, now, student, course_id, decimals);
    }
    if spec_batch_enroll(s, now, contract, student, ids, batch_decimals) is Ok {
        assert(batch_error(s, now, student, ids, batch_decimals, 0) is None);
        lemma_batch_checked(s, now, student, ids, batch_decimals, 0);
        assert forall|j: int| 0 <= j < ids.len() implies prerequisites_held(s, student, #[trigger] ids[j]) by {
            assert(enrollment_error(s, now, student, ids[j], batch_decimals[j]) is None);
            lemma_checked_holds(s, now, student, ids[j], batch_decimals[j]);
        }
    }
}

/// Issuing a certificate respects the course's certificate limit: it
/// succeeds only below the limit, raises the issued count by one, and so
/// never takes the count above the limit.
pub proof fn law_certificate_limit(
    s: State,
    now: u32,
    contract: Addr,
    admin: Addr,
    student: Addr,
    course_id: Seq<u8>,
    certificate_id: Seq<u8>,
    course_title: Seq<u8>,
    enrollment_reference: Seq<u8>,
    expires_at_ledger: Option<u32>,
    instructor_signature: Option<[u8; 64]>,
)
    requires
        spec_issue_certificate(
            s,
            now,
            contract,
            admin,
            student,
            course_id,
            certificate_id,
            course_title,
            enrollment_reference,
            expires_at_ledger,
            instructor_signature,
        ) is Ok,
    ensures
        ({
            let s1 = spec_issue_certificate(
                s,
                now,
                contract,
                admin,
                student,
                course_id,
                certificate_id,
                course_title,
                enrollment_reference,
                expires_at_ledger,
                instructor_signature,
            )->Ok_0;
            let c = lookup_course(s, course_id)->0;
            let c1 = lookup_course(s1, course_id)->0;
            &&& lookup_course(s, course_id) is Some
            &&& lookup_course(s1, course_id) is Some
            &&& c.max_certificates matches Some(m) ==> c.certificates_issued < m
            &&& c1.certificates_issued == c.certificates_issued + 1
            &&& c1.max_certificates == c.max_certificates
            &&& c1.max_certificates matches Some(m) ==> c1.certificates_issued <= m
        }),
{
}

/// Re-enrolling in an expired course is refused: a re-enrollment succeeds
/// only before the course's expiry ledger.
pub proof fn law_re_enroll_before_expiry(
    s: State,
    now: u32,
    contract: Addr,
    student: Addr,
    course_id: Seq<u8>,
)
    requires
        spec_re_enroll(s, now, contract, student, course_id) is Ok,
    ensures
        lookup_course(s, course_id) is Some,
        lookup_course(s, course_id)->0.expires_at_ledger matches Some(x) ==> now < x,
{
}

/// Whether the student's enrollment in the course is a completed one.
pub open spec fn completed_in(s: State, student: Addr, course_id: Seq<u8>) -> bool {
    s.enrollments.contains_key(atkey(student, course_id)) && s.enrollments[atkey(
        student,
        course_id,
    )].completed
}

/// Refunding while archiving keeps every completed enrollment of the
/// course and sends nothing to its holder.
proof fn lemma_archive_refunds_spare_completed(
    s: State,
    contract: Addr,
    treasury: Addr,
    c: CourseView,
    course_id: Seq<u8>,
    students: Seq<Addr>,
    i: int,
    count: u32,
    total: i128,
)
    requires
        0 <= i <= students.len(),
        archive_refunds(s, contract, treasury, c, course_id, students, i, count, total) is Ok,
    ensures
        ({
            let (s2, c2, ts) = archive_refunds(s, contract, treasury, c, course_id, students, i, count, total)->Ok_0;
            &&& forall|a: Addr| #[trigger] completed_in(s, a, course_id) ==> s2.enrollments.contains_key(
                atkey(a, course_id),
            ) && s2.enrollments[atkey(a, course_id)] == s.enrollments[atkey(a, course_id)]
            &&& forall|j: int| 0 <= j < ts.len() ==> !completed_in(s, #[trigger] ts[j].to, course_id)
        }),
    decreases students.len() - i,
{
    if i < students.len() {
        if !refundable(s, students[i], course_id) {
            lemma_archive_refunds_spare_completed(s, contract, treasury, c, course_id, students, i + 1, count, total);
        } else {
            let st = students[i];
            let e = s.enrollments[atkey(st, course_id)];
            let amount = e.platform_amount + e.instructor_amount;
            let (s2, ts) = spec_refund_enrollment(
                s,
                contract,
                treasury,
                c.token,
                c.instructor,
                st,
                course_id,
                e.platform_amount,
                e.instructor_amount,
            )->Ok_0;
            let c_next = CourseView { active_enrollments: saturating_dec(c.active_enrollments), ..c };
            lemma_archive_refunds_spare_completed(
                s2,
                contract,
                treasury,
                c_next,
                course_id,
                students,
                i + 1,
                (count + 1) as u32,
                (total + amount) as i128,
            );
            assert(s2.enrollments == s.enrollments.remove(atkey(st, course_id)));
            assert forall|j: int| 0 <= j < ts.len() implies #[trigger] ts[j].to == st by {}
            assert forall|a: Addr| #[trigger] completed_in(s, a, course_id) implies completed_in(s2, a, course_id)
                && s2.enrollments[atkey(a, course_id)] == s.enrollments[atkey(a, course_id)] by {
                assert(atkey(a, course_id) != atkey(st, course_id));
            }
            let (s3, c3, ts3) = archive_refunds(
                s2,
                contract,
                treasury,
                c_next,
                course_id,
                students,
                i + 1,
                (count + 1) as u32,
                (total + amount) as i128,
            )->Ok_0;
            assert forall|j: int| 0 <= j < ts3.len() implies !completed_in(s, #[trigger] ts3[j].to, course_id) by {
                if completed_in(s, ts3[j].to, course_id) {
                    assert(completed_in(s2, ts3[j].to, course_id));
                }
            }
            let all = ts + ts3;
            assert forall|j: int| 0 <= j < all.len() implies !completed_in(s, #[trigger] all[j].to, course_id) by {
                if j < ts.len() {
                    assert(all[j] == ts[j]);
                } else {
                    assert(all[j] == ts3[j - ts.len()]);
                }
            }
        }
    }
}

/// Archiving refunds only open enrollments: a listed student whose
/// enrollment in the course is completed keeps it unchanged and receives
/// no transfer.
pub proof fn law_archive_spares_completed(
    s: State,
    now: u32,
    contract: Addr,
    admin1: Addr,
    admin2: Addr,
    course_id: Seq<u8>,
    students: Option<Seq<Addr>>,
)
    requires
        spec_archive_course(s, now, contract, admin1, admin2, course_id, students) is Ok,
    ensures
        ({
            let (s1, ts) = spec_archive_course(s, now, contract, admin1, admin2, course_id, students)->Ok_0;
            &&& forall|a: Addr| #[trigger] completed_in(s, a, course_id) ==> s1.enrollments.contains_key(
                atkey(a, course_id),
            ) && s1.enrollments[atkey(a, course_id)] == s.enrollments[atkey(a, course_id)]
            &&& forall|j: int| 0 <= j < ts.len() ==> !completed_in(s, #[trigger] ts[j].to, course_id)
        }),
{
    let c = lookup_course(s, course_id)->0;
    match students {
        None => {},
        Some(list) => {
            lemma_archive_refunds_spare_completed(s, contract, s.treasury->0, c, course_id, list, 0, 0, 0);
        },
    }
}

/// A first enrollment succeeds only on a running platform, for a student
/// who is not blocked, not yet enrolled and not the instructor, in an
/// Active course whose token is approved, that has started, has not
/// expired and has room, while the platform is under its enrollment cap;
/// afterwards the student is enrolled, unfinished, having paid the price.
pub proof fn law_enrollment_eligibility(
    s: State,
    now: u32,
    contract: Addr,
    student: Addr,
    course_id: Seq<u8>,
    decimals: u32,
)
    requires
        spec_enroll(s, now, contract, student, course_id, decimals) is Ok,
    ensures
        ({
            let c = lookup_course(s, course_id)->0;
            let s1 = spec_enroll(s, now, contract, student, course_id, decimals)->Ok_0.0;
            let k = atkey(student, course_id);
            &&& lookup_course(s, course_id) is Some
            &&& !s.platform_paused
            &&& !in_set(s.blocked_students, student)
            &&& !in_set(s.frozen_instructors, c.instructor)
            &&& student != c.instructor
            &&& c.status == CourseStatus::Active
            &&& in_set(s.approved_tokens, c.token)
            &&& !s.enrollments.contains_key(k)
            &&& c.enrollment_start_ledger matches Some(start) ==> start <= now
            &&& c.expires_at_ledger matches Some(x) ==> now < x
            &&& c.max_capacity matches Some(m) ==> c.total_enrollments < m
            &&& s.platform_cap matches Some(cap) ==> s.total_active < cap
            &&& s1.enrollments.contains_key(k)
            &&& s1.enrollments[k].student == student
            &&& !s1.enrollments[k].completed
            &&& s1.enrollments[k].amount_paid == if c.price > 0 { c.price } else { 0 }
            &&& s1.total_active == s.total_active + 1
        }),
{
}

/// A re-enrollment succeeds only on a running platform, for a student who
/// is not blocked and holds a completed enrollment in an Active course that
/// has room and has not expired, while the platform is under its cap; the
/// completed record then closes the student's history and a fresh,
/// unfinished enrollment takes its place.
pub proof fn law_re_enroll_eligibility(
    s: State,
    now: u32,
    contract: Addr,
    student: Addr,
    course_id: Seq<u8>,
)
    requires
        spec_re_enroll(s, now, contract, student, course_id) is Ok,
    ensures
        ({
            let c = lookup_course(s, course_id)->0;
            let s1 = spec_re_enroll(s, now, contract, student, course_id)->Ok_0.0;
            let k = atkey(student, course_id);
            &&& lookup_course(s, course_id) is Some
            &&& !s.platform_paused
            &&& !in_set(s.blocked_students, student)
            &&& !in_set(s.frozen_instructors, c.instructor)
            &&& student != c.instructor
            &&& c.status == CourseStatus::Active
            &&& in_set(s.approved_tokens, c.token)
            &&& s.enrollments.contains_key(k) && s.enrollments[k].completed
            &&& c.max_capacity matches Some(m) ==> c.total_enrollments < m
            &&& s.platform_cap matches Some(cap) ==> s.total_active < cap
            &&& s1.histories.contains_key(k)
            &&& s1.histories[k].last() == s.enrollments[k]
            &&& s1.enrollments.contains_key(k)
            &&& !s1.enrollments[k].completed
            &&& !s1.enrollments[k].certificate_issued
        }),
{
}

/// A certificate is issued only by the admin, to a student who is not
/// blocked, for that student's own completed, unrefunded enrollment that
/// has no certificate yet, under a fresh certificate id; the certificate
/// then stands unrevoked and the enrollment records it.
pub proof fn law_certificate_issuance(
    s: State,
    now: u32,
    contract: Addr,
    admin: Addr,
    student: Addr,
    course_id: Seq<u8>,
    certificate_id: Seq<u8>,
    course_title: Seq<u8>,
    enrollment_reference: Seq<u8>,
    expires_at_ledger: Option<u32>,
    instructor_signature: Option<[u8; 64]>,
)
    requires
        spec_issue_certificate(
            s,
            now,
            contract,
            admin,
            student,
            course_id,
            certificate_id,
            course_title,
            enrollment_reference,
            expires_at_ledger,
            instructor_signature,
        ) is Ok,
    ensures
        ({
            let s1 = spec_issue_certificate(
                s,
                now,
                contract,
                admin,
                student,
                course_id,
                certificate_id,
                course_title,
                enrollment_reference,
                expires_at_ledger,
                instructor_signature,
            )->Ok_0;
            let k = atkey(student, course_id);
            let e = s.enrollments[k];
            &&& s.admin == Some(admin)
            &&& !admin_expired(s, now)
            &&& !in_set(s.blocked_students, student)
            &&& s.enrollments.contains_key(k)
            &&& e.completed && !e.is_refunded && !e.certificate_issued
            &&& !s.certificates.contains_key(tkey(certificate_id))
            &&& holds_certificate(s1, student, course_id)
            &&& s1.enrollments[k].certificate_id == Some(certificate_id)
            &&& s1.certificates[tkey(certificate_id)].student == e.student
        }),
{
}

} // verus!
