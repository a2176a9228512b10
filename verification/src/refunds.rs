//! Refunds: a student's refund request, its processing by the admin, and
//! the archiving of a paused course with the refund of its open
//! enrollments.
use vstd::prelude::*;
use crate::courses::elapsed;
use crate::enrollment::enrollment_gate_error;
use crate::model::{ContractError, Course, CourseStatus, CourseView, RefundRequest, RefundRequestView, RefundStatus, Transfer};
use crate::state::{catalog, lemma_cover_kept, lemma_cover_same, HamplardContract, State, admin_check, balance_of, committed, in_set, lookup_course, multi_admin_check};
use crate::table::{Addr, Key, akey, atkey, copy_bytes, pkey, tkey};

verus! {

/// Taking `amount` back out of an instructor's earnings in a token and out
/// of the instructor's all-token total; an entry that reaches zero is
/// removed.
pub open spec fn spec_debit(s: State, instructor: Addr, token: Addr, amount: i128) -> Result<
    State,
    ContractError,
> {
    let ek = pkey(instructor, token);
    let tk = akey(instructor);
    let current = balance_of(s.earnings, ek);
    let total = balance_of(s.total_earnings, tk);
    if amount > current {
        Err(ContractError::InsufficientInstructorEarnings)
    } else if amount > total {
        Err(ContractError::InconsistentTotalEarnings)
    } else {
        Ok(
            State {
                earnings: if current - amount == 0 {
                    s.earnings.remove(ek)
                } else {
                    s.earnings.insert(ek, (current - amount) as i128)
                },
                total_earnings: if total - amount == 0 {
                    s.total_earnings.remove(tk)
                } else {
                    s.total_earnings.insert(tk, (total - amount) as i128)
                },
                ..s
            },
        )
    }
}

/// A counter decremented, staying at zero.
pub open spec fn saturating_dec(n: u32) -> u32 {
    if n > 0 {
        (n - 1) as u32
    } else {
        0
    }
}

/// Refunding one enrollment's payment: the platform share comes back from
/// the treasury, the instructor share out of the instructor's earnings held
/// by the contract; the enrollment record is removed and the platform-wide
/// active count drops. Returns the transfers to make, in order.
pub open spec fn spec_refund_enrollment(
    s: State,
    contract: Addr,
    treasury: Addr,
    token: Addr,
    instructor: Addr,
    student: Addr,
    course_id: Seq<u8>,
    platform_amount: i128,
    instructor_amount: i128,
) -> Result<(State, Seq<Transfer>), ContractError> {
    let t1 = if platform_amount > 0 {
        seq![Transfer { token, from: treasury, to: student, amount: platform_amount }]
    } else {
        Seq::empty()
    };
    let debited = if instructor_amount > 0 {
        spec_debit(s, instructor, token, instructor_amount)
    } else {
        Ok(s)
    };
    match debited {
        Err(e) => Err(e),
        Ok(s2) => Ok(
            (
                State {
                    enrollments: s2.enrollments.remove(atkey(student, course_id)),
                    total_active: saturating_dec(s2.total_active),
                    ..s2
                },
                if instructor_amount > 0 {
                    t1.push(
                        Transfer { token, from: contract, to: student, amount: instructor_amount },
                    )
                } else {
                    t1
                },
            ),
        ),
    }
}

/// A student asks for a refund of an unfinished enrollment, within the
/// refund window counted from the enrollment.
pub open spec fn spec_request_refund(s: State, now: u32, student: Addr, course_id: Seq<u8>) -> Result<
    State,
    ContractError,
> {
    let k = atkey(student, course_id);
    if in_set(s.blocked_students, student) {
        Err(ContractError::StudentBlockedFromRefund)
    } else if !s.enrollments.contains_key(k) {
        Err(ContractError::EnrollmentNotFound)
    } else if s.enrollments[k].completed {
        Err(ContractError::AlreadyCompleted)
    } else if elapsed(now, s.enrollments[k].enrolled_at_ledger) > s.refund_window {
        Err(ContractError::RefundWindowExpired)
    } else if s.refund_requests.contains_key(k) {
        Err(ContractError::RefundRequestExists)
    } else {
        Ok(
            State {
                refund_requests: s.refund_requests.insert(
                    k,
                    RefundRequestView {
                        student,
                        course_id,
                        requested_at_ledger: now,
                        status: RefundStatus::Pending,
                    },
                ),
                ..s
            },
        )
    }
}

/// The admin decides a pending refund request. An approval refunds the
/// enrollment, removes it and decrements the course's active count.
pub open spec fn spec_process_refund(
    s: State,
    now: u32,
    contract: Addr,
    admin: Addr,
    student: Addr,
    course_id: Seq<u8>,
    approved: bool,
) -> Result<(State, Seq<Transfer>), ContractError> {
    let k = atkey(student, course_id);
    let req = s.refund_requests[k];
    if admin_check(s, now, admin) is Some {
        Err(admin_check(s, now, admin)->0)
    } else if !s.refund_requests.contains_key(k) {
        Err(ContractError::RefundRequestNotFound)
    } else if req.status != RefundStatus::Pending {
        Err(ContractError::RefundNotPending)
    } else if !approved {
        Ok(
            (
                State {
                    refund_requests: s.refund_requests.insert(
                        k,
                        RefundRequestView { status: RefundStatus::Rejected, ..req },
                    ),
                    ..s
                },
                Seq::empty(),
            ),
        )
    } else if in_set(s.blocked_students, student) {
        Err(ContractError::StudentBlockedFromRefund)
    } else {
        match lookup_course(s, course_id) {
            None => Err(ContractError::CourseNotFound),
            Some(c) => if !s.enrollments.contains_key(k) {
                Err(ContractError::EnrollmentNotFound)
            } else if s.treasury is None {
                Err(ContractError::TreasuryNotSet)
            } else {
                let e = s.enrollments[k];
                match spec_refund_enrollment(
                    s,
                    contract,
                    s.treasury->0,
                    c.token,
                    c.instructor,
                    student,
                    course_id,
                    e.platform_amount,
                    e.instructor_amount,
                ) {
                    Err(x) => Err(x),
                    Ok((s2, ts)) => Ok(
                        (
                            State {
                                courses: s2.courses.insert(
                                    tkey(course_id),
                                    CourseView {
                                        active_enrollments: saturating_dec(c.active_enrollments),
                                        last_updated_ledger: now,
                                        ..c
                                    },
                                ),
                                refund_requests: s2.refund_requests.insert(
                                    k,
                                    RefundRequestView { status: RefundStatus::Approved, ..req },
                                ),
                                ..s2
                            },
                            ts,
                        ),
                    ),
                }
            },
        }
    }
}

/// What promoting the head of a course's waitlist is refused with, if the
/// waitlist is non-empty: promotion runs the enrollment checks for that
/// student against the stored course.
pub open spec fn promotion_error(s: State, course_id: Seq<u8>) -> Option<ContractError> {
    let k = tkey(course_id);
    if s.waitlists.contains_key(k) && s.waitlists[k].len() > 0 {
        enrollment_gate_error(s, s.waitlists[k][0], course_id)
    } else {
        None
    }
}

/// Whether a student's enrollment in the course is refunded on archiving:
/// it exists, is unfinished and was not refunded before.
pub open spec fn refundable(s: State, student: Addr, course_id: Seq<u8>) -> bool {
    let k = atkey(student, course_id);
    s.enrollments.contains_key(k) && !s.enrollments[k].completed && !s.enrollments[k].is_refunded
}

/// Refunding `students[i..]` in turn while archiving course `c`; `count`
/// and `total` are the refunds made and the amount refunded so far.
/// Returns the state, the course's working copy and the transfers.
pub open spec fn archive_refunds(
    s: State,
    contract: Addr,
    treasury: Addr,
    c: CourseView,
    course_id: Seq<u8>,
    students: Seq<Addr>,
    i: int,
    count: u32,
    total: i128,
) -> Result<(State, CourseView, Seq<Transfer>), ContractError>
    decreases students.len() - i,
{
    if i < 0 || i >= students.len() {
        Ok((s, c, Seq::empty()))
    } else if !refundable(s, students[i], course_id) {
        archive_refunds(s, contract, treasury, c, course_id, students, i + 1, count, total)
    } else {
        let e = s.enrollments[atkey(students[i], course_id)];
        let amount = e.platform_amount + e.instructor_amount;
        match spec_refund_enrollment(
            s,
            contract,
            treasury,
            c.token,
            c.instructor,
            students[i],
            course_id,
            e.platform_amount,
            e.instructor_amount,
        ) {
            Err(x) => Err(x),
            Ok((s2, ts)) => if count == u32::MAX || amount > i128::MAX || amount < i128::MIN
                || total + amount > i128::MAX || total + amount < i128::MIN {
                Err(ContractError::Overflow)
            } else if promotion_error(s2, course_id) is Some {
                Err(promotion_error(s2, course_id)->0)
            } else {
                match archive_refunds(
                    s2,
                    contract,
                    treasury,
                    CourseView { active_enrollments: saturating_dec(c.active_enrollments), ..c },
                    course_id,
                    students,
                    i + 1,
                    (count + 1) as u32,
                    (total + amount) as i128,
                ) {
                    Err(x) => Err(x),
                    Ok((s3, c3, ts3)) => Ok((s3, c3, ts + ts3)),
                }
            },
        }
    }
}

/// The view of an optional list of accounts.
pub open spec fn opt_addrs(o: Option<Vec<Addr>>) -> Option<Seq<Addr>> {
    match o {
        Some(v) => Some(v@),
        None => None,
    }
}

/// Archiving a paused course (both admins). The listed students' open
/// enrollments are refunded first; the course must then have no active
/// enrollment left. The record moves from the live courses to the archive,
/// which starts the re-registration cooldown.
pub open spec fn spec_archive_course(
    s: State,
    now: u32,
    contract: Addr,
    admin1: Addr,
    admin2: Addr,
    course_id: Seq<u8>,
    students: Option<Seq<Addr>>,
) -> Result<(State, Seq<Transfer>), ContractError> {
    if multi_admin_check(s, now, admin1, admin2) is Some {
        Err(multi_admin_check(s, now, admin1, admin2)->0)
    } else {
        match lookup_course(s, course_id) {
            None => Err(ContractError::CourseNotFound),
            Some(c) => if c.status != CourseStatus::Paused {
                Err(ContractError::CourseMustBePaused)
            } else {
                let refunded = match students {
                    None => Ok((s, c, Seq::empty())),
                    Some(list) => if s.treasury is None {
                        Err(ContractError::TreasuryNotSet)
                    } else {
                        archive_refunds(s, contract, s.treasury->0, c, course_id, list, 0, 0, 0)
                    },
                };
                archive_finish(now, course_id, refunded)
            },
        }
    }
}

/// The end of archiving, once the refunds are made: the course must have
/// no active enrollment left; it then moves to the archive.
pub open spec fn archive_finish(
    now: u32,
    course_id: Seq<u8>,
    refunded: Result<(State, CourseView, Seq<Transfer>), ContractError>,
) -> Result<(State, Seq<Transfer>), ContractError> {
    match refunded {
        Err(e) => Err(e),
        Ok((s2, c2, ts)) => if c2.active_enrollments > 0 {
            Err(ContractError::ActiveEnrollmentsRemain)
        } else {
            Ok(
                (
                    State {
                        archived: s2.archived.insert(
                            tkey(course_id),
                            CourseView {
                                status: CourseStatus::Archived,
                                archived_at_ledger: Some(now),
                                last_updated_ledger: now,
                                ..c2
                            },
                        ),
                        courses: s2.courses.remove(tkey(course_id)),
                        ..s2
                    },
                    ts,
                ),
            )
        },
    }
}

impl HamplardContract {
    fn debit_earnings(&mut self, instructor: Addr, token: Addr, amount: i128) -> (r: Result<
        (),
        ContractError,
    >)
        requires
            old(self).wf(),
            amount > 0,
        ensures
            final(self).wf(),
            committed(r, spec_debit(old(self)@, instructor, token, amount), old(self)@, final(self)@),
    {
        let ek = Key::of_pair(instructor, token);
        let tk = Key::of_addr(instructor);
        let current = Self::balance(&self.earnings, &ek);
        let total = Self::balance(&self.total_earnings, &tk);
        if amount > current {
            return Err(ContractError::InsufficientInstructorEarnings);
        }
        if amount > total {
            return Err(ContractError::InconsistentTotalEarnings);
        }
        if current - amount == 0 {
            let _ = self.earnings.remove(&ek);
        } else {
            self.earnings.set(ek, current - amount);
        }
        if total - amount == 0 {
            let _ = self.total_earnings.remove(&tk);
        } else {
            self.total_earnings.set(tk, total - amount);
        }
        Ok(())
    }

    fn refund_enrollment(
        &mut self,
        contract: Addr,
        treasury: Addr,
        token: Addr,
        instructor: Addr,
        student: Addr,
        course_id: &Vec<u8>,
        platform_amount: i128,
        instructor_amount: i128,
    ) -> (r: Result<Vec<Transfer>, ContractError>)
        requires
            old(self).wf(),
        ensures
            final(self).wf(),
            match spec_refund_enrollment(
                old(self)@,
                contract,
                treasury,
                token,
                instructor,
                student,
                course_id@,
                platform_amount,
                instructor_amount,
            ) {
                Ok((s, ts)) => r matches Ok(v) && v@ == ts && final(self)@ == s,
                Err(e) => r == Err::<Vec<Transfer>, ContractError>(e) && final(self)@ == old(self)@,
            },
    {
        let mut transfers: Vec<Transfer> = Vec::new();
        if platform_amount > 0 {
            transfers.push(Transfer { token, from: treasury, to: student, amount: platform_amount });
        }
        if instructor_amount > 0 {
            match self.debit_earnings(instructor, token, instructor_amount) {
                Err(e) => {
                    return Err(e);
                },
                Ok(()) => {},
            }
            transfers.push(Transfer { token, from: contract, to: student, amount: instructor_amount });
        }
        let _ = self.enrollments.remove(&Key::of_addr_text(student, course_id));
        self.total_active = if self.total_active > 0 {
            self.total_active - 1
        } else {
            0
        };
        proof {
            let t1 = if platform_amount > 0 {
                seq![Transfer { token, from: treasury, to: student, amount: platform_amount }]
            } else {
                Seq::empty()
            };
            if instructor_amount > 0 {
                assert(transfers@ =~= t1.push(
                    Transfer { token, from: contract, to: student, amount: instructor_amount },
                ));
            } else {
                assert(transfers@ =~= t1);
            }
        }
        Ok(transfers)
    }

    /// A student asks for a refund of an unfinished enrollment within the
    /// refund window; the admin decides it later.
    pub fn request_refund(&mut self, now: u32, student: Addr, course_id: &Vec<u8>) -> (r: Result<
        (),
        ContractError,
    >)
        requires
            old(self).wf(),
        ensures
            final(self).wf(),
            committed(r, spec_request_refund(old(self)@, now, student, course_id@), old(self)@, final(self)@),
    {
        if Self::in_addr_set(&self.blocked_students, student) {
            return Err(ContractError::StudentBlockedFromRefund);
        }
        let k = Key::of_addr_text(student, course_id);
        let enrolled_at = match self.enrollments.get(&k) {
            None => {
                return Err(ContractError::EnrollmentNotFound);
            },
            Some(e) => {
                if e.completed {
                    return Err(ContractError::AlreadyCompleted);
                }
                e.enrolled_at_ledger
            },
        };
        let since = if now >= enrolled_at {
            now - enrolled_at
        } else {
            0
        };
        if since > self.refund_window {
            return Err(ContractError::RefundWindowExpired);
        }
        if self.refund_requests.contains(&k) {
            return Err(ContractError::RefundRequestExists);
        }
        self.refund_requests.set(
            k,
            RefundRequest {
                student,
                course_id: copy_bytes(course_id),
                requested_at_ledger: now,
                status: RefundStatus::Pending,
            },
        );
        Ok(())
    }

    /// The admin approves or rejects a pending refund request. An approval
    /// returns the refund transfers to make.
    pub fn process_refund(
        &mut self,
        now: u32,
        contract: Addr,
        admin: Addr,
        student: Addr,
        course_id: &Vec<u8>,
        approved: bool,
    ) -> (r: Result<Vec<Transfer>, ContractError>)
        requires
            old(self).wf(),
        ensures
            final(self).wf(),
            match spec_process_refund(old(self)@, now, contract, admin, student, course_id@, approved) {
                Ok((s, ts)) => r matches Ok(v) && v@ == ts && final(self)@ == s,
                Err(e) => r == Err::<Vec<Transfer>, ContractError>(e) && final(self)@ == old(self)@,
            },
    {
        match self.check_admin(now, admin) {
            Some(e) => {
                return Err(e);
            },
            None => {},
        }
        let k = Key::of_addr_text(student, course_id);
        let mut req = match self.refund_requests.get(&k) {
            None => {
                return Err(ContractError::RefundRequestNotFound);
            },
            Some(q) => q.duplicate(),
        };
        if req.status != RefundStatus::Pending {
            return Err(ContractError::RefundNotPending);
        }
        if !approved {
            req.status = RefundStatus::Rejected;
            self.refund_requests.set(k, req);
            return Ok(Vec::new());
        }
        if Self::in_addr_set(&self.blocked_students, student) {
            return Err(ContractError::StudentBlockedFromRefund);
        }
        let mut course = match self.find_course(course_id) {
            None => {
                return Err(ContractError::CourseNotFound);
            },
            Some(c) => c.duplicate(),
        };
        let (platform_amount, instructor_amount) = match self.enrollments.get(&k) {
            None => {
                return Err(ContractError::EnrollmentNotFound);
            },
            Some(e) => (e.platform_amount, e.instructor_amount),
        };
        let treasury = match self.treasury {
            None => {
                return Err(ContractError::TreasuryNotSet);
            },
            Some(t) => t,
        };
        let transfers = match self.refund_enrollment(
            contract,
            treasury,
            course.token,
            course.instructor,
            student,
            course_id,
            platform_amount,
            instructor_amount,
        ) {
            Err(e) => {
                return Err(e);
            },
            Ok(ts) => ts,
        };
        course.active_enrollments = if course.active_enrollments > 0 {
            course.active_enrollments - 1
        } else {
            0
        };
        course.last_updated_ledger = now;
        self.put_course(course_id, course);
        let ghost mid = self@;
        req.status = RefundStatus::Approved;
        self.refund_requests.set(k, req);
        proof {
            lemma_cover_same(mid, self@);
        }
        Ok(transfers)
    }

    /// A refund request by student and course id.
    pub fn get_refund_request(&self, student: Addr, course_id: &Vec<u8>) -> (r: Option<RefundRequest>)
        requires
            self.wf(),
        ensures
            match r {
                Some(q) => self@.refund_requests.contains_key(atkey(student, course_id@)) && q@
                    == self@.refund_requests[atkey(student, course_id@)],
                None => !self@.refund_requests.contains_key(atkey(student, course_id@)),
            },
    {
        match self.refund_requests.get(&Key::of_addr_text(student, course_id)) {
            Some(q) => Some(q.duplicate()),
            None => None,
        }
    }

    fn check_promotion(&self, course_id: &Vec<u8>) -> (r: Option<ContractError>)
        requires
            self.wf(),
        ensures
            r == promotion_error(self@, course_id@),
    {
        match self.waitlists.get(&Key::of_text(course_id)) {
            None => None,
            Some(l) => {
                if l.items.len() > 0 {
                    self.check_enrollment_gate(l.items[0], course_id)
                } else {
                    None
                }
            },
        }
    }

    /// Both admins archive a paused course, refunding the listed students'
    /// open enrollments first. Returns the refund transfers to make.
    pub fn archive_course(
        &mut self,
        now: u32,
        contract: Addr,
        admin1: Addr,
        admin2: Addr,
        course_id: &Vec<u8>,
        students_to_refund: &Option<Vec<Addr>>,
    ) -> (r: Result<Vec<Transfer>, ContractError>)
        requires
            old(self).wf(),
        ensures
            final(self).wf(),
            match spec_archive_course(
                old(self)@,
                now,
                contract,
                admin1,
                admin2,
                course_id@,
                opt_addrs(*students_to_refund),
            ) {
                Ok((s, ts)) => r matches Ok(v) && v@ == ts && final(self)@ == s,
                Err(e) => r == Err::<Vec<Transfer>, ContractError>(e) && final(self)@ == old(self)@,
            },
    {
        match self.check_multi_admin(now, admin1, admin2) {
            Some(e) => {
                return Err(e);
            },
            None => {},
        }
        let c0 = match self.find_course(course_id) {
            None => {
                return Err(ContractError::CourseNotFound);
            },
            Some(c) => c.duplicate(),
        };
        if c0.status != CourseStatus::Paused {
            return Err(ContractError::CourseMustBePaused);
        }
        let mut work = self.snapshot();
        let mut course = c0.duplicate();
        let mut transfers: Vec<Transfer> = Vec::new();
        match students_to_refund {
            None => {},
            Some(list) => {
                let treasury = match self.treasury {
                    None => {
                        return Err(ContractError::TreasuryNotSet);
                    },
                    Some(t) => t,
                };
                let ghost spec_result = archive_refunds(
                    old(self)@,
                    contract,
                    treasury,
                    c0@,
                    course_id@,
                    list@,
                    0,
                    0,
                    0,
                );
                let mut count: u32 = 0;
                let mut total: i128 = 0;
                let mut i: usize = 0;
                assert(transfers@ + Seq::<Transfer>::empty() =~= Seq::<Transfer>::empty());
                proof {
                    match archive_refunds(old(self)@, contract, treasury, c0@, course_id@, list@, 0, 0, 0) {
                        Ok((a, b, t)) => {
                            assert(transfers@ + t =~= t);
                        },
                        Err(_) => {},
                    }
                }
                while i < list.len()
                    invariant
                        work.wf(),
                        self.wf(),
                        self@ == old(self)@,
                        work@.courses == old(self)@.courses,
                        work@.archived == old(self)@.archived,
                        work@.course_counts == old(self)@.course_counts,
                        work@.pending_counts == old(self)@.pending_counts,
                        course@.instructor == c0@.instructor,
                        i <= list.len(),
                        spec_archive_course(
                            old(self)@,
                            now,
                            contract,
                            admin1,
                            admin2,
                            course_id@,
                            opt_addrs(*students_to_refund),
                        ) == archive_finish(now, course_id@, spec_result),
                        spec_result == archive_refunds(
                            old(self)@,
                            contract,
                            treasury,
                            c0@,
                            course_id@,
                            list@,
                            0,
                            0,
                            0,
                        ),
                        spec_result == match archive_refunds(
                            work@,
                            contract,
                            treasury,
                            course@,
                            course_id@,
                            list@,
                            i as int,
                            count,
                            total,
                        ) {
                            Ok((a, b, t)) => Ok::<(State, CourseView, Seq<Transfer>), ContractError>(
                                (a, b, transfers@ + t),
                            ),
                            Err(e) => Err(e),
                        },
                    decreases list.len() - i,
                {
                    let student = list[i];
                    let ghost w0 = work@;
                    let ghost c_before = course@;
                    let ghost tr0 = transfers@;
                    let k = Key::of_addr_text(student, course_id);
                    let open = match work.enrollments.get(&k) {
                        None => None,
                        Some(e) => {
                            if !e.completed && !e.is_refunded {
                                Some((e.platform_amount, e.instructor_amount))
                            } else {
                                None
                            }
                        },
                    };
                    match open {
                        None => {},
                        Some((pa, ia)) => {
                            let ts = match work.refund_enrollment(
                                contract,
                                treasury,
                                course.token,
                                course.instructor,
                                student,
                                course_id,
                                pa,
                                ia,
                            ) {
                                Err(e) => {
                                    assert(archive_refunds(w0, contract, treasury, c_before, course_id@, list@, i as int, count, total) == Err::<(State, CourseView, Seq<Transfer>), ContractError>(e));
                                    return Err(e);
                                },
                                Ok(ts) => ts,
                            };
                            if count == u32::MAX {
                                assert(archive_refunds(w0, contract, treasury, c_before, course_id@, list@, i as int, count, total) == Err::<(State, CourseView, Seq<Transfer>), ContractError>(ContractError::Overflow));
                                return Err(ContractError::Overflow);
                            }
                            let amount = match pa.checked_add(ia) {
                                None => {
                                    assert(archive_refunds(w0, contract, treasury, c_before, course_id@, list@, i as int, count, total) == Err::<(State, CourseView, Seq<Transfer>), ContractError>(ContractError::Overflow));
                                    return Err(ContractError::Overflow);
                                },
                                Some(x) => x,
                            };
                            let ghost total0 = total;
                            total = match total.checked_add(amount) {
                                None => {
                                    assert(archive_refunds(w0, contract, treasury, c_before, course_id@, list@, i as int, count, total0) == Err::<(State, CourseView, Seq<Transfer>), ContractError>(ContractError::Overflow));
                                    return Err(ContractError::Overflow);
                                },
                                Some(x) => x,
                            };
                            count = count + 1;
                            course.active_enrollments = if course.active_enrollments > 0 {
                                course.active_enrollments - 1
                            } else {
                                0
                            };
                            match work.check_promotion(course_id) {
                                Some(e) => {
                                    assert(archive_refunds(w0, contract, treasury, c_before, course_id@, list@, i as int, (count - 1) as u32, total0) == Err::<(State, CourseView, Seq<Transfer>), ContractError>(e));
                                    return Err(e);
                                },
                                None => {},
                            }
                            let mut j: usize = 0;
                            while j < ts.len()
                                invariant
                                    j <= ts.len(),
                                    transfers@ == tr0 + ts@.subrange(0, j as int),
                                decreases ts.len() - j,
                            {
                                transfers.push(ts[j]);
                                j = j + 1;
                                assert(transfers@ =~= tr0 + ts@.subrange(0, j as int));
                            }
                            assert(ts@.subrange(0, ts.len() as int) =~= ts@);
                            proof {
                                match archive_refunds(
                                    work@,
                                    contract,
                                    treasury,
                                    course@,
                                    course_id@,
                                    list@,
                                    i + 1,
                                    count,
                                    total,
                                ) {
                                    Ok((a, b, t3)) => {
                                        assert(tr0 + (ts@ + t3) =~= transfers@ + t3);
                                    },
                                    Err(_) => {},
                                }
                            }
                        },
                    }
                    i = i + 1;
                }
            },
        }
        if course.active_enrollments > 0 {
            return Err(ContractError::ActiveEnrollmentsRemain);
        }
        course.status = CourseStatus::Archived;
        course.archived_at_ledger = Some(now);
        course.last_updated_ledger = now;
        let key = Key::of_text(course_id);
        let ghost archived_record = course@;
        work.archived.set(Key::of_text(course_id), course);
        let _ = work.courses.remove(&key);
        *self = work;
        proof {
            let k = tkey(course_id@);
            assert(catalog(self@) =~= catalog(old(self)@).insert(k, archived_record));
            assert(catalog(old(self)@)[k] == c0@);
            lemma_cover_kept(old(self)@, self@);
        }
        Ok(transfers)
    }
}

} // verus!
