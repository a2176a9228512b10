//! Enrollment and payment: eligibility rules, the platform / instructor
//! split, instructor earnings and their withdrawal.
use vstd::prelude::*;
use crate::fees::{fee_breakdown, fee_config_for, resolve_risk_flags, spec_fee_breakdown, spec_fee_config, spec_split, split_payment};
use crate::model::{ContractError, Course, CourseStatus, CourseView, EnrollReceipt, Enrollment, EnrollmentLocator, EnrollmentView, InstructorStats, RiskFeeApplied, Transfer};
use crate::state::{lemma_cover_update, EXPECTED_TOKEN_DECIMALS, HamplardContract, State, balance_of, committed, in_set, is_admin, lookup_course, stats_of};
use crate::table::{Addr, Key, akey, atkey, bytes_eq, copy_bytes, pkey, tkey};
use crate::text::{counter_to_string, decimal};

verus! {

/// Whether a student holds an issued, unrevoked certificate for a course.
pub open spec fn has_valid_certificate(s: State, student: Addr, course_id: Seq<u8>) -> bool {
    let k = atkey(student, course_id);
    &&& s.enrollments.contains_key(k)
    &&& s.enrollments[k].certificate_issued
    &&& s.enrollments[k].certificate_id is Some
    &&& s.certificates.contains_key(tkey(s.enrollments[k].certificate_id->0))
    &&& !s.certificates[tkey(s.enrollments[k].certificate_id->0)].revoked
}

pub open spec fn prerequisites_met(s: State, student: Addr, ps: Seq<Seq<u8>>) -> bool {
    forall|i: int| 0 <= i < ps.len() ==> has_valid_certificate(s, student, #[trigger] ps[i])
}

/// The first checks of an enrollment, up to the course being Active.
pub open spec fn enrollment_gate_error(s: State, student: Addr, course_id: Seq<u8>) -> Option<
    ContractError,
> {
    if s.platform_paused {
        Some(ContractError::PlatformPaused)
    } else {
        match lookup_course(s, course_id) {
            None => Some(ContractError::CourseNotFound),
            Some(c) => if in_set(s.blocked_students, student) {
                Some(ContractError::StudentBlocked)
            } else if in_set(s.frozen_instructors, c.instructor) {
                Some(ContractError::InstructorFrozen)
            } else if is_admin(s, student) {
                Some(ContractError::AdminCannotEnroll)
            } else if !s.instructor_refs.contains_key(tkey(course_id)) {
                Some(ContractError::InstructorRefNotFound)
            } else if s.instructor_refs[tkey(course_id)] != c.instructor {
                Some(ContractError::InstructorRefMismatch)
            } else if student == c.instructor {
                Some(ContractError::InstructorSelfEnroll)
            } else if c.status != CourseStatus::Active {
                Some(ContractError::CourseNotAvailable)
            } else {
                None
            },
        }
    }
}

/// Every check of a first enrollment, in the order they are made.
/// `token_decimals` is the precision the course's token reports.
pub open spec fn enrollment_error(
    s: State,
    now: u32,
    student: Addr,
    course_id: Seq<u8>,
    token_decimals: u32,
) -> Option<ContractError> {
    match enrollment_gate_error(s, student, course_id) {
        Some(e) => Some(e),
        None => {
            let c = lookup_course(s, course_id)->0;
            if now <= c.created_at_ledger {
                Some(ContractError::SameLedgerEnrollment)
            } else if c.enrollment_start_ledger is Some && now < c.enrollment_start_ledger->0 {
                Some(ContractError::EnrollmentNotStarted)
            } else if s.enrollments.contains_key(atkey(student, course_id)) {
                Some(ContractError::AlreadyEnrolled)
            } else if c.max_capacity is Some && c.total_enrollments >= c.max_capacity->0 {
                Some(ContractError::CourseFull)
            } else if c.expires_at_ledger is Some && now >= c.expires_at_ledger->0 {
                Some(ContractError::CourseExpired)
            } else if !in_set(s.approved_tokens, c.token) {
                Some(ContractError::TokenNotApproved)
            } else if token_decimals != EXPECTED_TOKEN_DECIMALS {
                Some(ContractError::TokenDecimalsMismatch)
            } else if !prerequisites_met(s, student, c.prerequisite_course_ids) {
                Some(ContractError::PrerequisiteNotCompleted)
            } else if s.platform_cap is Some && s.total_active >= s.platform_cap->0 {
                Some(ContractError::PlatformCapReached)
            } else {
                None
            }
        },
    }
}

/// The base fee rate of a token: its own configuration, else the default.
pub open spec fn base_fee_bps(s: State, token: Addr) -> u32 {
    spec_fee_config(
        if s.fee_configs.contains_key(akey(token)) {
            Some(s.fee_configs[akey(token)])
        } else {
            None
        },
        s.default_fee,
    ).fee_bps
}

/// The fee breakdown charged on a payment in a token.
pub open spec fn payment_breakdown(s: State, token: Addr, amount: i128) -> Result<
    RiskFeeApplied,
    ContractError,
> {
    spec_fee_breakdown(
        base_fee_bps(s, token),
        s.risk_enabled,
        s.risk_config,
        amount,
        crate::fees::spec_risk_flags().0,
        crate::fees::spec_risk_flags().1,
    )
}

/// Whether a scheduled treasury change has taken effect.
pub open spec fn treasury_update_due(s: State, now: u32) -> bool {
    s.pending_treasury is Some && now >= s.pending_treasury->0.effective_ledger
}

/// The treasury in force at `now`.
pub open spec fn current_treasury(s: State, now: u32) -> Addr {
    if treasury_update_due(s, now) {
        s.pending_treasury->0.address
    } else {
        s.treasury->0
    }
}

/// Charging a student for a course and recording the enrollment: the
/// price is split into a platform fee forwarded to the treasury and an
/// instructor share credited to the instructor's earnings; a due treasury
/// change is applied first. `amount_paid` is what the record states.
pub open spec fn spec_charge_and_record(
    s: State,
    now: u32,
    contract: Addr,
    student: Addr,
    course_id: Seq<u8>,
    c: CourseView,
    amount_paid: i128,
) -> Result<(State, EnrollReceipt), ContractError> {
    let price = c.price;
    let brk = payment_breakdown(s, c.token, price);
    if price > 0 && brk is Err {
        Err(ContractError::Overflow)
    } else if s.treasury is None {
        Err(ContractError::TreasuryNotSet)
    } else {
        let split = if price > 0 {
            spec_split(price, brk->Ok_0)
        } else {
            (0i128, 0i128)
        };
        let instructor_amount = split.0;
        let platform_amount = split.1;
        let treasury = current_treasury(s, now);
        let ek = pkey(c.instructor, c.token);
        let tk = akey(c.instructor);
        let credit = price > 0 && instructor_amount > 0;
        let new_balance = balance_of(s.earnings, ek) + instructor_amount;
        let new_total = balance_of(s.total_earnings, tk) + instructor_amount;
        let st = stats_of(s, c.instructor);
        let earned = c.total_earned + price;
        if (credit && (new_balance > i128::MAX || new_total > i128::MAX)) || s.ref_counter
            == u32::MAX || c.total_enrollments == u32::MAX || c.active_enrollments == u32::MAX
            || earned > i128::MAX || earned < i128::MIN || s.total_active == u32::MAX
            || st.total_students == u32::MAX {
            Err(ContractError::Overflow)
        } else {
            let rf = decimal(s.ref_counter as nat);
            let e = EnrollmentView {
                student,
                course_id,
                amount_paid,
                enrolled_at_ledger: now,
                completed: false,
                certificate_issued: false,
                certificate_id: None,
                evidence_hash: None,
                is_refunded: false,
                course_version: c.version,
                platform_amount,
                instructor_amount,
                enrollment_ref: rf,
            };
            let receipt = EnrollReceipt {
                student,
                instructor: c.instructor,
                token: c.token,
                treasury,
                price,
                platform_amount,
                instructor_amount,
                breakdown: if price > 0 {
                    Some(brk->Ok_0)
                } else {
                    None
                },
                payment: if price > 0 {
                    Some(Transfer { token: c.token, from: student, to: contract, amount: price })
                } else {
                    None
                },
                fee_transfer: if price > 0 && platform_amount > 0 {
                    Some(
                        Transfer {
                            token: c.token,
                            from: contract,
                            to: treasury,
                            amount: platform_amount,
                        },
                    )
                } else {
                    None
                },
            };
            Ok(
                (
                    State {
                        treasury: Some(treasury),
                        pending_treasury: if treasury_update_due(s, now) {
                            None
                        } else {
                            s.pending_treasury
                        },
                        earnings: if credit {
                            s.earnings.insert(ek, new_balance as i128)
                        } else {
                            s.earnings
                        },
                        total_earnings: if credit {
                            s.total_earnings.insert(tk, new_total as i128)
                        } else {
                            s.total_earnings
                        },
                        ref_counter: (s.ref_counter + 1) as u32,
                        enrollments_by_ref: s.enrollments_by_ref.insert(
                            tkey(rf),
                            (student, course_id),
                        ),
                        enrollments: s.enrollments.insert(atkey(student, course_id), e),
                        courses: s.courses.insert(
                            tkey(course_id),
                            CourseView {
                                total_enrollments: (c.total_enrollments + 1) as u32,
                                active_enrollments: (c.active_enrollments + 1) as u32,
                                total_earned: earned as i128,
                                last_updated_ledger: now,
                                ..c
                            },
                        ),
                        total_active: (s.total_active + 1) as u32,
                        stats: s.stats.insert(
                            akey(c.instructor),
                            InstructorStats { total_students: (st.total_students + 1) as u32, ..st },
                        ),
                        ..s
                    },
                    receipt,
                ),
            )
        }
    }
}

/// A first enrollment: every eligibility check, then the charge.
pub open spec fn spec_enroll(
    s: State,
    now: u32,
    contract: Addr,
    student: Addr,
    course_id: Seq<u8>,
    token_decimals: u32,
) -> Result<(State, EnrollReceipt), ContractError> {
    match enrollment_error(s, now, student, course_id, token_decimals) {
        Some(e) => Err(e),
        None => {
            let c = lookup_course(s, course_id)->0;
            spec_charge_and_record(
                s,
                now,
                contract,
                student,
                course_id,
                c,
                if c.price > 0 {
                    c.price
                } else {
                    0
                },
            )
        },
    }
}

/// Whether a list holds the same id twice.
pub open spec fn has_duplicates(ids: Seq<Seq<u8>>) -> bool {
    exists|i: int, j: int| 0 <= i < j < ids.len() && ids[i] == ids[j]
}

/// The first eligibility refusal among `ids[i..]`, all judged on one state.
pub open spec fn batch_error(
    s: State,
    now: u32,
    student: Addr,
    ids: Seq<Seq<u8>>,
    decimals: Seq<u32>,
    i: int,
) -> Option<ContractError>
    decreases ids.len() - i,
{
    if i < 0 || i >= ids.len() {
        None
    } else {
        match enrollment_error(s, now, student, ids[i], decimals[i]) {
            Some(e) => Some(e),
            None => batch_error(s, now, student, ids, decimals, i + 1),
        }
    }
}

/// Enrolling in `ids[i..]` one after the other.
pub open spec fn enroll_from(
    s: State,
    now: u32,
    contract: Addr,
    student: Addr,
    ids: Seq<Seq<u8>>,
    decimals: Seq<u32>,
    i: int,
) -> Result<(State, Seq<EnrollReceipt>), ContractError>
    decreases ids.len() - i,
{
    if i < 0 || i >= ids.len() {
        Ok((s, Seq::empty()))
    } else {
        match spec_enroll(s, now, contract, student, ids[i], decimals[i]) {
            Err(e) => Err(e),
            Ok((s2, rc)) => match enroll_from(s2, now, contract, student, ids, decimals, i + 1) {
                Err(e) => Err(e),
                Ok((s3, rs)) => Ok((s3, seq![rc] + rs)),
            },
        }
    }
}

/// A batch enrollment: all or nothing. The list must be non-empty and free
/// of duplicates, every course must pass the checks on the state before the
/// batch, and then each enrollment is made in turn.
pub open spec fn spec_batch_enroll(
    s: State,
    now: u32,
    contract: Addr,
    student: Addr,
    ids: Seq<Seq<u8>>,
    decimals: Seq<u32>,
) -> Result<(State, Seq<EnrollReceipt>), ContractError> {
    if ids.len() == 0 {
        Err(ContractError::CourseListEmpty)
    } else if has_duplicates(ids) {
        Err(ContractError::DuplicateCourseInBatch)
    } else {
        match batch_error(s, now, student, ids, decimals, 0) {
            Some(e) => Err(e),
            None => enroll_from(s, now, contract, student, ids, decimals, 0),
        }
    }
}

/// The checks of a re-enrollment after a completed attempt.
pub open spec fn re_enrollment_error(s: State, now: u32, student: Addr, course_id: Seq<u8>) -> Option<
    ContractError,
> {
    if s.platform_paused {
        Some(ContractError::PlatformPaused)
    } else {
        match lookup_course(s, course_id) {
            None => Some(ContractError::CourseNotFound),
            Some(c) => {
                let k = atkey(student, course_id);
                if in_set(s.blocked_students, student) {
                    Some(ContractError::StudentBlocked)
                } else if in_set(s.frozen_instructors, c.instructor) {
                    Some(ContractError::InstructorFrozen)
                } else if student == c.instructor {
                    Some(ContractError::InstructorSelfEnroll)
                } else if c.status != CourseStatus::Active {
                    Some(ContractError::CourseNotAvailable)
                } else if !in_set(s.approved_tokens, c.token) {
                    Some(ContractError::TokenNotApproved)
                } else if !s.enrollments.contains_key(k) {
                    Some(ContractError::NoPriorEnrollment)
                } else if !s.enrollments[k].completed {
                    Some(ContractError::EnrollmentNotCompleted)
                } else if c.max_capacity is Some && c.total_enrollments >= c.max_capacity->0 {
                    Some(ContractError::CourseFull)
                } else if c.expires_at_ledger is Some && now >= c.expires_at_ledger->0 {
                    Some(ContractError::CourseExpired)
                } else if s.platform_cap is Some && s.total_active >= s.platform_cap->0 {
                    Some(ContractError::PlatformCapReached)
                } else {
                    None
                }
            },
        }
    }
}

/// A re-enrollment: the completed record moves to the history, and the
/// student is charged again as for a first enrollment.
pub open spec fn spec_re_enroll(
    s: State,
    now: u32,
    contract: Addr,
    student: Addr,
    course_id: Seq<u8>,
) -> Result<(State, EnrollReceipt), ContractError> {
    match re_enrollment_error(s, now, student, course_id) {
        Some(e) => Err(e),
        None => {
            let c = lookup_course(s, course_id)->0;
            let k = atkey(student, course_id);
            let h = if s.histories.contains_key(k) {
                s.histories[k]
            } else {
                Seq::empty()
            };
            let s1 = State { histories: s.histories.insert(k, h.push(s.enrollments[k])), ..s };
            spec_charge_and_record(s1, now, contract, student, course_id, c, c.price)
        },
    }
}

/// A withdrawal of instructor earnings in one token; `amount == 0` takes
/// the whole balance. Returns the transfer to make, if any.
pub open spec fn spec_withdraw_earnings(
    s: State,
    contract: Addr,
    instructor: Addr,
    token: Addr,
    amount: i128,
) -> Result<(State, Option<Transfer>), ContractError> {
    let k = pkey(instructor, token);
    let balance = balance_of(s.earnings, k);
    let w = if amount == 0 {
        balance
    } else {
        amount
    };
    if amount < 0 {
        Err(ContractError::NegativeWithdrawal)
    } else if w == 0 {
        Ok((s, None))
    } else if w > balance {
        Err(ContractError::InsufficientEarnings)
    } else {
        Ok(
            (
                State {
                    earnings: if balance - w == 0 {
                        s.earnings.remove(k)
                    } else {
                        s.earnings.insert(k, (balance - w) as i128)
                    },
                    ..s
                },
                Some(Transfer { token, from: contract, to: instructor, amount: w }),
            ),
        )
    }
}

/// What the contract must have received for a charge, judged from its
/// token balance before and after the student's payment: exactly the price.
pub open spec fn spec_check_received(balance_before: i128, balance_after: i128, expected: i128) -> Result<
    i128,
    ContractError,
> {
    if balance_after - balance_before > i128::MAX || balance_after - balance_before < i128::MIN {
        Err(ContractError::Overflow)
    } else if balance_after - balance_before != expected {
        Err(ContractError::TransferAmountMismatch)
    } else {
        Ok((balance_after - balance_before) as i128)
    }
}

/// Checks that a payment into the contract arrived in full; returns the
/// amount received.
pub fn check_received(balance_before: i128, balance_after: i128, expected: i128) -> (r: Result<
    i128,
    ContractError,
>)
    ensures
        r == spec_check_received(balance_before, balance_after, expected),
{
    match balance_after.checked_sub(balance_before) {
        None => Err(ContractError::Overflow),
        Some(received) => {
            if received != expected {
                Err(ContractError::TransferAmountMismatch)
            } else {
                Ok(received)
            }
        },
    }
}

impl HamplardContract {
    fn has_valid_certificate_for(&self, student: Addr, course_id: &Vec<u8>) -> (r: bool)
        requires
            self.wf(),
        ensures
            r == has_valid_certificate(self@, student, course_id@),
    {
        match self.enrollments.get(&Key::of_addr_text(student, course_id)) {
            None => false,
            Some(e) => {
                if !e.certificate_issued {
                    return false;
                }
                match &e.certificate_id {
                    None => false,
                    Some(cid) => match self.certificates.get(&Key::of_text(cid)) {
                        None => false,
                        Some(cert) => !cert.revoked,
                    },
                }
            },
        }
    }

    fn prerequisites_met_for(&self, student: Addr, ids: &Vec<Vec<u8>>) -> (r: bool)
        requires
            self.wf(),
        ensures
            r == prerequisites_met(self@, student, crate::model::texts(ids@)),
    {
        let ghost ps = crate::model::texts(ids@);
        let mut i: usize = 0;
        while i < ids.len()
            invariant
                self.wf(),
                i <= ids.len(),
                ps == crate::model::texts(ids@),
                ps.len() == ids.len(),
                forall|j: int| 0 <= j < i ==> has_valid_certificate(self@, student, #[trigger] ps[j]),
            decreases ids.len() - i,
        {
            let p = &ids[i];
            assert(ps[i as int] == p@);
            if !self.has_valid_certificate_for(student, p) {
                return false;
            }
            i = i + 1;
        }
        true
    }

    pub(crate) fn check_enrollment_gate(&self, student: Addr, course_id: &Vec<u8>) -> (r: Option<ContractError>)
        requires
            self.wf(),
        ensures
            r == enrollment_gate_error(self@, student, course_id@),
    {
        if self.platform_paused {
            return Some(ContractError::PlatformPaused);
        }
        let c = match self.find_course(course_id) {
            None => {
                return Some(ContractError::CourseNotFound);
            },
            Some(c) => c,
        };
        if Self::in_addr_set(&self.blocked_students, student) {
            return Some(ContractError::StudentBlocked);
        }
        if Self::in_addr_set(&self.frozen_instructors, c.instructor) {
            return Some(ContractError::InstructorFrozen);
        }
        if self.is_admin_addr(student) {
            return Some(ContractError::AdminCannotEnroll);
        }
        match self.instructor_refs.get(&Key::of_text(course_id)) {
            None => {
                return Some(ContractError::InstructorRefNotFound);
            },
            Some(r) => {
                if *r != c.instructor {
                    return Some(ContractError::InstructorRefMismatch);
                }
            },
        }
        if student == c.instructor {
            return Some(ContractError::InstructorSelfEnroll);
        }
        if c.status != CourseStatus::Active {
            return Some(ContractError::CourseNotAvailable);
        }
        None
    }

    /// The refusal, if any, of a first enrollment.
    pub fn check_enrollment(
        &self,
        now: u32,
        student: Addr,
        course_id: &Vec<u8>,
        token_decimals: u32,
    ) -> (r: Option<ContractError>)
        requires
            self.wf(),
        ensures
            r == enrollment_error(self@, now, student, course_id@, token_decimals),
    {
        match self.check_enrollment_gate(student, course_id) {
            Some(e) => {
                return Some(e);
            },
            None => {},
        }
        let c = self.find_course(course_id).unwrap();
        if now <= c.created_at_ledger {
            return Some(ContractError::SameLedgerEnrollment);
        }
        match c.enrollment_start_ledger {
            Some(start) => {
                if now < start {
                    return Some(ContractError::EnrollmentNotStarted);
                }
            },
            None => {},
        }
        if self.enrollments.contains(&Key::of_addr_text(student, course_id)) {
            return Some(ContractError::AlreadyEnrolled);
        }
        match c.max_capacity {
            Some(cap) => {
                if c.total_enrollments >= cap {
                    return Some(ContractError::CourseFull);
                }
            },
            None => {},
        }
        match c.expires_at_ledger {
            Some(expiry) => {
                if now >= expiry {
                    return Some(ContractError::CourseExpired);
                }
            },
            None => {},
        }
        if !Self::in_addr_set(&self.approved_tokens, c.token) {
            return Some(ContractError::TokenNotApproved);
        }
        if token_decimals != EXPECTED_TOKEN_DECIMALS {
            return Some(ContractError::TokenDecimalsMismatch);
        }
        if !self.prerequisites_met_for(student, &c.prerequisite_course_ids) {
            return Some(ContractError::PrerequisiteNotCompleted);
        }
        match self.platform_cap {
            Some(cap) => {
                if self.total_active >= cap {
                    return Some(ContractError::PlatformCapReached);
                }
            },
            None => {},
        }
        None
    }

    fn fee_breakdown_for(&self, token: Addr, amount: i128) -> (r: Result<RiskFeeApplied, ContractError>)
        requires
            self.wf(),
        ensures
            r == payment_breakdown(self@, token, amount),
            r matches Ok(b) ==> (amount > 0 ==> 0 <= b.platform_fee <= amount),
    {
        let cfg = match self.fee_configs.get(&Key::of_addr(token)) {
            Some(c) => Some(*c),
            None => None,
        };
        let base = fee_config_for(cfg, self.default_fee).fee_bps;
        let (is_new_customer, is_btc_eth) = resolve_risk_flags(0, token);
        fee_breakdown(base, self.risk_enabled, self.risk_config, amount, is_new_customer, is_btc_eth)
    }

    /// Charges for and records an enrollment; see `spec_charge_and_record`.
    fn charge_and_record(
        &mut self,
        now: u32,
        contract: Addr,
        student: Addr,
        course_id: &Vec<u8>,
        c: Course,
        amount_paid: i128,
    ) -> (r: Result<EnrollReceipt, ContractError>)
        requires
            old(self).wf(),
            lookup_course(old(self)@, course_id@) == Some(c@),
        ensures
            final(self).wf(),
            match spec_charge_and_record(old(self)@, now, contract, student, course_id@, c@, amount_paid) {
                Ok((s, rc)) => r == Ok::<EnrollReceipt, ContractError>(rc) && final(self)@ == s,
                Err(e) => r == Err::<EnrollReceipt, ContractError>(e) && final(self)@ == old(
                    self,
                )@,
            },
    {
        let price = c.price;
        let brk = self.fee_breakdown_for(c.token, price);
        if price > 0 && brk.is_err() {
            return Err(ContractError::Overflow);
        }
        let stored_treasury = match self.treasury {
            None => {
                return Err(ContractError::TreasuryNotSet);
            },
            Some(t) => t,
        };
        let (instructor_amount, platform_amount) = if price > 0 {
            match &brk {
                Ok(b) => split_payment(price, b),
                Err(_) => (0, 0),
            }
        } else {
            (0, 0)
        };
        let due = match self.pending_treasury {
            Some(p) => now >= p.effective_ledger,
            None => false,
        };
        let treasury = if due {
            self.pending_treasury.unwrap().address
        } else {
            stored_treasury
        };
        let ek = Key::of_pair(c.instructor, c.token);
        let tk = Key::of_addr(c.instructor);
        let credit = price > 0 && instructor_amount > 0;
        let balance = Self::balance(&self.earnings, &ek);
        let total = Self::balance(&self.total_earnings, &tk);
        let st = match self.stats.get(&Key::of_addr(c.instructor)) {
            Some(x) => *x,
            None => InstructorStats { total_students: 0, total_completions: 0, total_certificates: 0 },
        };
        if credit && (balance.checked_add(instructor_amount).is_none() || total.checked_add(
            instructor_amount,
        ).is_none()) {
            return Err(ContractError::Overflow);
        }
        if self.ref_counter == u32::MAX || c.total_enrollments == u32::MAX || c.active_enrollments
            == u32::MAX || self.total_active == u32::MAX || st.total_students == u32::MAX {
            return Err(ContractError::Overflow);
        }
        let earned = match c.total_earned.checked_add(price) {
            None => {
                return Err(ContractError::Overflow);
            },
            Some(v) => v,
        };
        let receipt = EnrollReceipt {
            student,
            instructor: c.instructor,
            token: c.token,
            treasury,
            price,
            platform_amount,
            instructor_amount,
            breakdown: if price > 0 {
                match brk {
                    Ok(b) => Some(b),
                    Err(_) => None,
                }
            } else {
                None
            },
            payment: if price > 0 {
                Some(Transfer { token: c.token, from: student, to: contract, amount: price })
            } else {
                None
            },
            fee_transfer: if price > 0 && platform_amount > 0 {
                Some(Transfer { token: c.token, from: contract, to: treasury, amount: platform_amount })
            } else {
                None
            },
        };
        if due {
            self.treasury = Some(treasury);
            self.pending_treasury = None;
        }
        if credit {
            self.earnings.set(ek, balance + instructor_amount);
            self.total_earnings.set(tk, total + instructor_amount);
        }
        let counter = self.ref_counter;
        self.ref_counter = counter + 1;
        let enrollment_ref = counter_to_string(counter);
        self.enrollments_by_ref.set(
            Key::of_text(&enrollment_ref),
            EnrollmentLocator { student, course_id: copy_bytes(course_id) },
        );
        let enrollment = Enrollment {
            student,
            course_id: copy_bytes(course_id),
            amount_paid,
            enrolled_at_ledger: now,
            completed: false,
            certificate_issued: false,
            certificate_id: None,
            evidence_hash: None,
            is_refunded: false,
            course_version: c.version,
            platform_amount,
            instructor_amount,
            enrollment_ref,
        };
        self.enrollments.set(Key::of_addr_text(student, course_id), enrollment);
        let instructor = c.instructor;
        let mut course = c;
        course.total_enrollments = course.total_enrollments + 1;
        course.active_enrollments = course.active_enrollments + 1;
        course.total_earned = earned;
        course.last_updated_ledger = now;
        let ghost cv = course@;
        self.courses.set(Key::of_text(course_id), course);
        self.total_active = self.total_active + 1;
        self.stats.set(
            Key::of_addr(instructor),
            InstructorStats { total_students: st.total_students + 1, ..st },
        );
        proof {
            lemma_cover_update(old(self)@, self@, course_id@, cv);
        }
        Ok(receipt)
    }

    /// Student enrolls in a course and pays its price: the platform fee
    /// goes to the treasury, the instructor share to the instructor's
    /// earnings. `token_decimals` is the precision the course's token reports.
    pub fn enroll(
        &mut self,
        now: u32,
        contract: Addr,
        student: Addr,
        course_id: &Vec<u8>,
        token_decimals: u32,
    ) -> (r: Result<EnrollReceipt, ContractError>)
        requires
            old(self).wf(),
        ensures
            final(self).wf(),
            match spec_enroll(old(self)@, now, contract, student, course_id@, token_decimals) {
                Ok((s, rc)) => r == Ok::<EnrollReceipt, ContractError>(rc) && final(self)@ == s,
                Err(e) => r == Err::<EnrollReceipt, ContractError>(e) && final(self)@ == old(
                    self,
                )@,
            },
    {
        match self.check_enrollment(now, student, course_id, token_decimals) {
            Some(e) => {
                return Err(e);
            },
            None => {},
        }
        let c = self.find_course(course_id).unwrap().duplicate();
        let paid = if c.price > 0 {
            c.price
        } else {
            0
        };
        self.charge_and_record(now, contract, student, course_id, c, paid)
    }

    /// Enrolls a student in several courses at once: either every
    /// enrollment is made or none. `token_decimals[i]` is the precision
    /// reported by the token of `course_ids[i]`.
    pub fn batch_enroll(
        &mut self,
        now: u32,
        contract: Addr,
        student: Addr,
        course_ids: &Vec<Vec<u8>>,
        token_decimals: &Vec<u32>,
    ) -> (r: Result<Vec<EnrollReceipt>, ContractError>)
        requires
            old(self).wf(),
            token_decimals.len() == course_ids.len(),
        ensures
            final(self).wf(),
            match spec_batch_enroll(
                old(self)@,
                now,
                contract,
                student,
                crate::model::texts(course_ids@),
                token_decimals@,
            ) {
                Ok((s, rcs)) => r matches Ok(v) && v@ == rcs && final(self)@ == s,
                Err(e) => r == Err::<Vec<EnrollReceipt>, ContractError>(e) && final(self)@ == old(
                    self,
                )@,
            },
    {
        let ghost ids = crate::model::texts(course_ids@);
        let ghost decs = token_decimals@;
        assert(ids.len() == course_ids.len());
        if course_ids.len() == 0 {
            return Err(ContractError::CourseListEmpty);
        }
        let mut i: usize = 0;
        while i < course_ids.len()
            invariant
                self.wf(),
                self@ == old(self)@,
                i <= course_ids.len(),
                ids.len() == course_ids.len(),
                ids == crate::model::texts(course_ids@),
                forall|a: int, b: int| 0 <= a < i && a < b < ids.len() ==> ids[a] != ids[b],
            decreases course_ids.len() - i,
        {
            let mut j: usize = i + 1;
            while j < course_ids.len()
                invariant
                    self.wf(),
                    self@ == old(self)@,
                    i < j <= course_ids.len(),
                    ids.len() == course_ids.len(),
                    ids == crate::model::texts(course_ids@),
                    forall|a: int, b: int| 0 <= a < i && a < b < ids.len() ==> ids[a] != ids[b],
                    forall|b: int| i < b < j ==> ids[i as int] != ids[b],
                decreases course_ids.len() - j,
            {
                assert(ids[i as int] == course_ids@[i as int]@);
                assert(ids[j as int] == course_ids@[j as int]@);
                if bytes_eq(&course_ids[i], &course_ids[j]) {
                    assert(has_duplicates(ids)) by {
                        assert(ids[i as int] == ids[j as int]);
                    }
                    return Err(ContractError::DuplicateCourseInBatch);
                }
                j = j + 1;
            }
            i = i + 1;
        }
        assert(!has_duplicates(ids));
        let mut k: usize = 0;
        while k < course_ids.len()
            invariant
                self.wf(),
                self@ == old(self)@,
                k <= course_ids.len(),
                token_decimals.len() == course_ids.len(),
                ids.len() == course_ids.len(),
                ids == crate::model::texts(course_ids@),
                decs == token_decimals@,
                !has_duplicates(ids),
                ids.len() > 0,
                batch_error(self@, now, student, ids, decs, 0) == batch_error(
                    self@,
                    now,
                    student,
                    ids,
                    decs,
                    k as int,
                ),
            decreases course_ids.len() - k,
        {
            assert(ids[k as int] == course_ids@[k as int]@);
            match self.check_enrollment(now, student, &course_ids[k], token_decimals[k]) {
                Some(e) => {
                    return Err(e);
                },
                None => {},
            }
            k = k + 1;
        }
        let mut work = self.snapshot();
        let mut receipts: Vec<EnrollReceipt> = Vec::new();
        let mut m: usize = 0;
        while m < course_ids.len()
            invariant
                work.wf(),
                self.wf(),
                self@ == old(self)@,
                !has_duplicates(ids),
                ids.len() > 0,
                batch_error(old(self)@, now, student, ids, decs, 0) is None,
                m <= course_ids.len(),
                token_decimals.len() == course_ids.len(),
                ids.len() == course_ids.len(),
                ids == crate::model::texts(course_ids@),
                decs == token_decimals@,
                enroll_from(old(self)@, now, contract, student, ids, decs, 0) == match enroll_from(
                    work@,
                    now,
                    contract,
                    student,
                    ids,
                    decs,
                    m as int,
                ) {
                    Err(e) => Err(e),
                    Ok((s3, rs)) => Ok((s3, receipts@ + rs)),
                },
            decreases course_ids.len() - m,
        {
            assert(ids[m as int] == course_ids@[m as int]@);
            let ghost before = work@;
            match work.enroll(now, contract, student, &course_ids[m], token_decimals[m]) {
                Err(e) => {
                    return Err(e);
                },
                Ok(rc) => {
                    let ghost prev = receipts@;
                    receipts.push(rc);
                    proof {
                        match enroll_from(work@, now, contract, student, ids, decs, m + 1) {
                            Err(e) => {},
                            Ok((s3, rs)) => {
                                assert(prev + (seq![rc] + rs) =~= receipts@ + rs);
                            },
                        }
                    }
                },
            }
            m = m + 1;
        }
        assert(receipts@ + Seq::<EnrollReceipt>::empty() =~= receipts@);
        *self = work;
        Ok(receipts)
    }

    fn check_re_enrollment(&self, now: u32, student: Addr, course_id: &Vec<u8>) -> (r: Option<
        ContractError,
    >)
        requires
            self.wf(),
        ensures
            r == re_enrollment_error(self@, now, student, course_id@),
    {
        if self.platform_paused {
            return Some(ContractError::PlatformPaused);
        }
        let c = match self.find_course(course_id) {
            None => {
                return Some(ContractError::CourseNotFound);
            },
            Some(c) => c,
        };
        if Self::in_addr_set(&self.blocked_students, student) {
            return Some(ContractError::StudentBlocked);
        }
        if Self::in_addr_set(&self.frozen_instructors, c.instructor) {
            return Some(ContractError::InstructorFrozen);
        }
        if student == c.instructor {
            return Some(ContractError::InstructorSelfEnroll);
        }
        if c.status != CourseStatus::Active {
            return Some(ContractError::CourseNotAvailable);
        }
        if !Self::in_addr_set(&self.approved_tokens, c.token) {
            return Some(ContractError::TokenNotApproved);
        }
        match self.enrollments.get(&Key::of_addr_text(student, course_id)) {
            None => {
                return Some(ContractError::NoPriorEnrollment);
            },
            Some(e) => {
                if !e.completed {
                    return Some(ContractError::EnrollmentNotCompleted);
                }
            },
        }
        match c.max_capacity {
            Some(cap) => {
                if c.total_enrollments >= cap {
                    return Some(ContractError::CourseFull);
                }
            },
            None => {},
        }
        match c.expires_at_ledger {
            Some(expiry) => {
                if now >= expiry {
                    return Some(ContractError::CourseExpired);
                }
            },
            None => {},
        }
        match self.platform_cap {
            Some(cap) => {
                if self.total_active >= cap {
                    return Some(ContractError::PlatformCapReached);
                }
            },
            None => {},
        }
        None
    }

    /// Student re-enrolls in a course already completed: the completed
    /// record is archived to the enrollment history and the student pays again.
    pub fn re_enroll(&mut self, now: u32, contract: Addr, student: Addr, course_id: &Vec<u8>) -> (r:
        Result<EnrollReceipt, ContractError>)
        requires
            old(self).wf(),
        ensures
            final(self).wf(),
            match spec_re_enroll(old(self)@, now, contract, student, course_id@) {
                Ok((s, rc)) => r == Ok::<EnrollReceipt, ContractError>(rc) && final(self)@ == s,
                Err(e) => r == Err::<EnrollReceipt, ContractError>(e) && final(self)@ == old(
                    self,
                )@,
            },
    {
        match self.check_re_enrollment(now, student, course_id) {
            Some(e) => {
                return Err(e);
            },
            None => {},
        }
        let c = self.find_course(course_id).unwrap().duplicate();
        let key = Key::of_addr_text(student, course_id);
        let previous = self.enrollments.get(&key).unwrap().duplicate();
        let mut work = self.snapshot();
        let mut history = match work.histories.remove(&key) {
            Some(h) => h,
            None => crate::model::EnrollmentList { items: Vec::new() },
        };
        let ghost h0 = if old(self)@.histories.contains_key(key@) {
            old(self)@.histories[key@]
        } else {
            Seq::empty()
        };
        assert(history@ == h0) by {
            if !old(self)@.histories.contains_key(key@) {
                assert(history@ =~= Seq::<EnrollmentView>::empty());
            }
        }
        let ghost items0 = history.items@;
        let ghost pv = previous@;
        history.items.push(previous);
        assert(history@ =~= h0.push(pv)) by {
            assert(history.items@ == items0.push(history.items@[items0.len() as int]));
        }
        let ghost kv = key@;
        work.histories.set(key, history);
        assert(pv == old(self)@.enrollments[kv]);
        assert(kv == atkey(student, course_id@));
        assert(c@ == lookup_course(old(self)@, course_id@)->0);
        assert(work.histories@ =~= old(self)@.histories.insert(kv, h0.push(pv)));
        assert(work@ == (State { histories: old(self)@.histories.insert(kv, h0.push(pv)), ..old(self)@ }));
        let price = c.price;
        let r = work.charge_and_record(now, contract, student, course_id, c, price);
        match r {
            Ok(rc) => {
                *self = work;
                Ok(rc)
            },
            Err(e) => Err(e),
        }
    }

    /// Instructor withdraws accumulated earnings in one token; `amount == 0`
    /// withdraws the whole balance. Returns the payout transfer, if any.
    pub fn withdraw_earnings(&mut self, contract: Addr, instructor: Addr, token: Addr, amount: i128) -> (r:
        Result<Option<Transfer>, ContractError>)
        requires
            old(self).wf(),
        ensures
            final(self).wf(),
            match spec_withdraw_earnings(old(self)@, contract, instructor, token, amount) {
                Ok((s, t)) => r == Ok::<Option<Transfer>, ContractError>(t) && final(self)@ == s,
                Err(e) => r == Err::<Option<Transfer>, ContractError>(e) && final(self)@ == old(
                    self,
                )@,
            },
    {
        if amount < 0 {
            return Err(ContractError::NegativeWithdrawal);
        }
        let key = Key::of_pair(instructor, token);
        let balance = Self::balance(&self.earnings, &key);
        let w = if amount == 0 {
            balance
        } else {
            amount
        };
        if w == 0 {
            return Ok(None);
        }
        if w > balance {
            return Err(ContractError::InsufficientEarnings);
        }
        let new_balance = balance - w;
        if new_balance == 0 {
            let _ = self.earnings.remove(&key);
        } else {
            self.earnings.set(key, new_balance);
        }
        Ok(Some(Transfer { token, from: contract, to: instructor, amount: w }))
    }
}

} // verus!
