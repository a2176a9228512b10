//! Course completion, certificate issuance, revocation with a challenge
//! period, and the read access rules on enrollments and certificates.
use vstd::prelude::*;
use crate::courses::elapsed;
use crate::model::{Certificate, CertificateView, ContractError, CourseStatus, CourseView, Enrollment, EnrollmentView, InstructorStats, TextList};
use crate::state::{lemma_cover_same, lemma_cover_update, HamplardContract, State, admin_check, committed, in_set, is_admin, lookup_course, stats_of, texts_of};
use crate::table::{Addr, Dup, Key, atkey, akey, bytes_eq, copy_bytes, tkey};
use crate::text::{MAX_COURSE_ID_LEN, MAX_COURSE_TITLE_LEN};
use crate::courses::{appended, push_text};

verus! {

/// The ledger at which an enrollment stops being completable, if it does.
pub open spec fn expiry_at(e: EnrollmentView, c: CourseView) -> Option<u32> {
    match c.enrollment_expiry_ledgers {
        None => None,
        Some(x) => if e.enrolled_at_ledger + x > u32::MAX {
            Some(u32::MAX)
        } else {
            Some((e.enrolled_at_ledger + x) as u32)
        },
    }
}

/// Marking an enrollment completed (admin only). Without evidence the
/// student must co-sign; the result says whether that signature is needed.
pub open spec fn spec_mark_completed(
    s: State,
    now: u32,
    admin: Addr,
    student: Addr,
    course_id: Seq<u8>,
    evidence_hash: Option<Seq<u8>>,
) -> Result<State, ContractError> {
    let k = atkey(student, course_id);
    if admin_check(s, now, admin) is Some {
        Err(admin_check(s, now, admin)->0)
    } else if evidence_hash is Some && evidence_hash->0.len() == 0 {
        Err(ContractError::EvidenceEmpty)
    } else if in_set(s.blocked_students, student) {
        Err(ContractError::StudentBlockedFromCompletion)
    } else if lookup_course(s, course_id) is None {
        Err(ContractError::CourseNotFound)
    } else {
        let c = lookup_course(s, course_id)->0;
        let e = s.enrollments[k];
        let st = stats_of(s, c.instructor);
        if c.status == CourseStatus::Archived {
            Err(ContractError::CannotCompleteArchivedCourse)
        } else if !s.enrollments.contains_key(k) {
            Err(ContractError::EnrollmentNotFound)
        } else if e.is_refunded {
            Err(ContractError::CannotCompleteRefunded)
        } else if elapsed(now, e.enrolled_at_ledger) < c.min_completion_ledgers {
            Err(ContractError::MinDurationNotElapsed)
        } else if e.course_id != course_id {
            Err(ContractError::EnrollmentCourseMismatch)
        } else if e.completed {
            Err(ContractError::AlreadyCompleted)
        } else if expiry_at(e, c) is Some && now >= expiry_at(e, c)->0 {
            Err(ContractError::EnrollmentExpired)
        } else if st.total_completions == u32::MAX {
            Err(ContractError::Overflow)
        } else {
            Ok(
                State {
                    enrollments: s.enrollments.insert(
                        k,
                        EnrollmentView { completed: true, evidence_hash, ..e },
                    ),
                    courses: if c.active_enrollments > 0 {
                        s.courses.insert(
                            tkey(course_id),
                            CourseView {
                                active_enrollments: (c.active_enrollments - 1) as u32,
                                last_updated_ledger: now,
                                ..c
                            },
                        )
                    } else {
                        s.courses
                    },
                    total_active: if s.total_active > 0 {
                        (s.total_active - 1) as u32
                    } else {
                        0
                    },
                    stats: s.stats.insert(
                        akey(c.instructor),
                        InstructorStats { total_completions: (st.total_completions + 1) as u32, ..st },
                    ),
                    ..s
                },
            )
        }
    }
}

/// The checks of a certificate issuance, in the order they are made.
pub open spec fn issuance_error(
    s: State,
    now: u32,
    admin: Addr,
    student: Addr,
    course_id: Seq<u8>,
    certificate_id: Seq<u8>,
    course_title: Seq<u8>,
    enrollment_reference: Seq<u8>,
) -> Option<ContractError> {
    let k = atkey(student, course_id);
    let e = s.enrollments[k];
    if admin_check(s, now, admin) is Some {
        admin_check(s, now, admin)
    } else if certificate_id.len() == 0 {
        Some(ContractError::CertificateIdEmpty)
    } else if certificate_id.len() > MAX_COURSE_ID_LEN {
        Some(ContractError::CertificateIdTooLong)
    } else if course_title.len() > MAX_COURSE_TITLE_LEN {
        Some(ContractError::TitleTooLong)
    } else if enrollment_reference.len() == 0 {
        Some(ContractError::ReferenceEmpty)
    } else if enrollment_reference.len() > MAX_COURSE_ID_LEN {
        Some(ContractError::ReferenceTooLong)
    } else if in_set(s.blocked_students, student) {
        Some(ContractError::StudentBlockedFromCertificate)
    } else if !s.enrollments.contains_key(k) {
        Some(ContractError::EnrollmentNotFound)
    } else if e.course_id != course_id {
        Some(ContractError::EnrollmentCourseMismatch)
    } else if e.is_refunded {
        Some(ContractError::CannotCertifyRefunded)
    } else if !e.completed {
        Some(ContractError::NotCompleted)
    } else if e.certificate_issued {
        Some(ContractError::CertificateAlreadyIssued)
    } else if s.certificates.contains_key(tkey(certificate_id)) {
        Some(ContractError::CertificateIdExists)
    } else if lookup_course(s, course_id) is None {
        Some(ContractError::CourseNotFound)
    } else {
        let c = lookup_course(s, course_id)->0;
        if c.max_certificates is Some && c.certificates_issued >= c.max_certificates->0 {
            Some(ContractError::MaxCertificatesReached)
        } else if c.certificates_issued == u32::MAX || stats_of(s, c.instructor).total_certificates
            == u32::MAX {
            Some(ContractError::Overflow)
        } else {
            None
        }
    }
}

/// Issuing a certificate for a completed enrollment (admin only).
pub open spec fn spec_issue_certificate(
    s: State,
    now: u32,
    contract: Addr,
    admin: Addr,
    student: Addr,
    course_id: Seq<u8>,
    certificate_id: Seq<u8>,
    course_title: Seq<u8>,
    enrollment_reference: Seq<u8>,
    expires_at_ledger: Option<u32>,
    instructor_signature: Option<[u8; 64]>,
) -> Result<State, ContractError> {
    match issuance_error(
        s,
        now,
        admin,
        student,
        course_id,
        certificate_id,
        course_title,
        enrollment_reference,
    ) {
        Some(err) => Err(err),
        None => {
            let k = atkey(student, course_id);
            let e = s.enrollments[k];
            let c = lookup_course(s, course_id)->0;
            let st = stats_of(s, c.instructor);
            Ok(
                State {
                    certificates: s.certificates.insert(
                        tkey(certificate_id),
                        CertificateView {
                            id: certificate_id,
                            student: e.student,
                            course_id,
                            course_title,
                            enrollment_reference,
                            instructor: c.instructor,
                            issued_by: contract,
                            issued_at_ledger: now,
                            revoked: false,
                            revoked_by: None,
                            revocation_ledger: None,
                            revocation_reason: None,
                            expires_at_ledger,
                            instructor_signature,
                            revocation_deadline: None,
                        },
                    ),
                    enrollments: s.enrollments.insert(
                        k,
                        EnrollmentView {
                            certificate_issued: true,
                            certificate_id: Some(certificate_id),
                            ..e
                        },
                    ),
                    courses: s.courses.insert(
                        tkey(course_id),
                        CourseView {
                            certificates_issued: (c.certificates_issued + 1) as u32,
                            last_updated_ledger: now,
                            ..c
                        },
                    ),
                    course_certificates: appended(
                        s.course_certificates,
                        tkey(course_id),
                        certificate_id,
                    ),
                    stats: s.stats.insert(
                        akey(c.instructor),
                        InstructorStats { total_certificates: (st.total_certificates + 1) as u32, ..st },
                    ),
                    ..s
                },
            )
        },
    }
}

/// Flagging one certificate as revoked, pending a challenge until the
/// deadline. Already revoked certificates are left alone (`Ok(false)`).
pub open spec fn spec_apply_revocation(
    s: State,
    now: u32,
    admin: Addr,
    certificate_id: Seq<u8>,
    reason: Seq<u8>,
) -> Result<(State, bool), ContractError> {
    let k = tkey(certificate_id);
    if !s.certificates.contains_key(k) {
        Err(ContractError::CertificateNotFound)
    } else if s.certificates[k].revoked {
        Ok((s, false))
    } else if now + s.challenge_period > u32::MAX {
        Err(ContractError::Overflow)
    } else {
        Ok(
            (
                State {
                    certificates: s.certificates.insert(
                        k,
                        CertificateView {
                            revoked: true,
                            revoked_by: Some(admin),
                            revocation_ledger: Some(now),
                            revocation_reason: Some(reason),
                            revocation_deadline: Some((now + s.challenge_period) as u32),
                            ..s.certificates[k]
                        },
                    ),
                    ..s
                },
                true,
            ),
        )
    }
}

/// Revoking one certificate (admin only); revoking twice is refused.
pub open spec fn spec_revoke_certificate(
    s: State,
    now: u32,
    admin: Addr,
    certificate_id: Seq<u8>,
    reason: Seq<u8>,
) -> Result<State, ContractError> {
    let k = tkey(certificate_id);
    if admin_check(s, now, admin) is Some {
        Err(admin_check(s, now, admin)->0)
    } else if !s.certificates.contains_key(k) {
        Err(ContractError::CertificateNotFound)
    } else if s.certificates[k].revoked {
        Err(ContractError::AlreadyRevoked)
    } else {
        match spec_apply_revocation(s, now, admin, certificate_id, reason) {
            Ok((s2, _)) => Ok(s2),
            Err(e) => Err(e),
        }
    }
}

/// The reason recorded by a course-wide revocation.
pub open spec fn bulk_reason() -> Seq<u8> {
    seq![66u8, 85, 76, 75, 95, 67, 79, 85, 82, 83, 69, 95, 82, 69, 86, 79, 67, 65, 84, 73, 79, 78]
}

/// Revoking `ids[i..]` in turn; returns how many were newly revoked.
pub open spec fn revoke_from(
    s: State,
    now: u32,
    admin: Addr,
    ids: Seq<Seq<u8>>,
    i: int,
    count: u32,
) -> Result<(State, u32), ContractError>
    decreases ids.len() - i,
{
    if i < 0 || i >= ids.len() {
        Ok((s, count))
    } else {
        match spec_apply_revocation(s, now, admin, ids[i], bulk_reason()) {
            Err(e) => Err(e),
            Ok((s2, fresh)) => if fresh && count == u32::MAX {
                Err(ContractError::Overflow)
            } else {
                revoke_from(
                    s2,
                    now,
                    admin,
                    ids,
                    i + 1,
                    if fresh {
                        (count + 1) as u32
                    } else {
                        count
                    },
                )
            },
        }
    }
}

/// Revoking every certificate ever issued for a course (admin only).
pub open spec fn spec_bulk_revoke(s: State, now: u32, admin: Addr, course_id: Seq<u8>) -> Result<
    (State, u32),
    ContractError,
> {
    let ids = texts_of(s.course_certificates, tkey(course_id));
    if admin_check(s, now, admin) is Some {
        Err(admin_check(s, now, admin)->0)
    } else if lookup_course(s, course_id) is None {
        Err(ContractError::CourseNotFound)
    } else if ids.len() == 0 {
        Err(ContractError::NoCertificates)
    } else {
        revoke_from(s, now, admin, ids, 0, 0)
    }
}

/// The holder's challenge of a pending revocation, before its deadline:
/// the certificate is restored and the revocation metadata cleared.
pub open spec fn spec_challenge_revocation(
    s: State,
    now: u32,
    student: Addr,
    certificate_id: Seq<u8>,
) -> Result<State, ContractError> {
    let k = tkey(certificate_id);
    let c = s.certificates[k];
    if !s.certificates.contains_key(k) {
        Err(ContractError::CertificateNotFound)
    } else if c.student != student {
        Err(ContractError::NotCertificateHolder)
    } else if !c.revoked || c.revocation_deadline is None {
        Err(ContractError::NoPendingRevocation)
    } else if now >= c.revocation_deadline->0 {
        Err(ContractError::ChallengeExpired)
    } else {
        Ok(
            State {
                certificates: s.certificates.insert(
                    k,
                    CertificateView {
                        revoked: false,
                        revoked_by: None,
                        revocation_ledger: None,
                        revocation_reason: None,
                        revocation_deadline: None,
                        ..c
                    },
                ),
                ..s
            },
        )
    }
}

/// Whether a certificate is valid at `now`: it exists, is not permanently
/// revoked (a revocation still open to challenge keeps it valid), and has
/// not expired.
pub open spec fn spec_verify_certificate(s: State, now: u32, certificate_id: Seq<u8>) -> bool {
    let k = tkey(certificate_id);
    if !s.certificates.contains_key(k) {
        false
    } else {
        let c = s.certificates[k];
        let unexpired = match c.expires_at_ledger {
            Some(x) => now < x,
            None => true,
        };
        let standing = if c.revoked {
            match c.revocation_deadline {
                Some(d) => now < d,
                None => false,
            }
        } else {
            true
        };
        standing && unexpired
    }
}

/// Who may read an enrollment of a course: the student, the admin, or
/// the course's instructor.
pub open spec fn enrollment_read_error(s: State, caller: Addr, student: Addr, course_id: Seq<u8>) -> Option<
    ContractError,
> {
    match lookup_course(s, course_id) {
        None => Some(ContractError::CourseNotFound),
        Some(c) => if caller != student && !is_admin(s, caller) && caller != c.instructor {
            Some(ContractError::Unauthorized)
        } else {
            None
        },
    }
}

impl HamplardContract {
    /// Admin marks a student's enrollment as completed. Without an
    /// evidence hash the student must co-sign: `Ok(true)` says so.
    pub fn mark_completed(
        &mut self,
        now: u32,
        admin: Addr,
        student: Addr,
        course_id: &Vec<u8>,
        evidence_hash: Option<Vec<u8>>,
    ) -> (r: Result<bool, ContractError>)
        requires
            old(self).wf(),
        ensures
            final(self).wf(),
            committed(
                r,
                spec_mark_completed(
                    old(self)@,
                    now,
                    admin,
                    student,
                    course_id@,
                    crate::model::opt_text(evidence_hash),
                ),
                old(self)@,
                final(self)@,
            ),
            r matches Ok(b) ==> b == evidence_hash.is_none(),
    {
        match self.check_admin(now, admin) {
            Some(e) => {
                return Err(e);
            },
            None => {},
        }
        match &evidence_hash {
            Some(h) => {
                if h.len() == 0 {
                    return Err(ContractError::EvidenceEmpty);
                }
            },
            None => {},
        }
        if Self::in_addr_set(&self.blocked_students, student) {
            return Err(ContractError::StudentBlockedFromCompletion);
        }
        let mut course = match self.find_course(course_id) {
            None => {
                return Err(ContractError::CourseNotFound);
            },
            Some(c) => c.duplicate(),
        };
        if course.status == CourseStatus::Archived {
            return Err(ContractError::CannotCompleteArchivedCourse);
        }
        let key = Key::of_addr_text(student, course_id);
        let mut enrollment = match self.enrollments.get(&key) {
            None => {
                return Err(ContractError::EnrollmentNotFound);
            },
            Some(e) => e.duplicate(),
        };
        if enrollment.is_refunded {
            return Err(ContractError::CannotCompleteRefunded);
        }
        let since = if now >= enrollment.enrolled_at_ledger {
            now - enrollment.enrolled_at_ledger
        } else {
            0
        };
        if since < course.min_completion_ledgers {
            return Err(ContractError::MinDurationNotElapsed);
        }
        if !bytes_eq(&enrollment.course_id, course_id) {
            return Err(ContractError::EnrollmentCourseMismatch);
        }
        if enrollment.completed {
            return Err(ContractError::AlreadyCompleted);
        }
        match course.enrollment_expiry_ledgers {
            Some(x) => {
                let at = match enrollment.enrolled_at_ledger.checked_add(x) {
                    Some(v) => v,
                    None => u32::MAX,
                };
                if now >= at {
                    return Err(ContractError::EnrollmentExpired);
                }
            },
            None => {},
        }
        let st = match self.stats.get(&Key::of_addr(course.instructor)) {
            Some(x) => *x,
            None => InstructorStats { total_students: 0, total_completions: 0, total_certificates: 0 },
        };
        if st.total_completions == u32::MAX {
            return Err(ContractError::Overflow);
        }
        let needs_signature = evidence_hash.is_none();
        enrollment.completed = true;
        enrollment.evidence_hash = evidence_hash;
        self.enrollments.set(key, enrollment);
        let instructor = course.instructor;
        let ghost mut put: Option<CourseView> = None;
        if course.active_enrollments > 0 {
            course.active_enrollments = course.active_enrollments - 1;
            course.last_updated_ledger = now;
            proof {
                put = Some(course@);
            }
            self.courses.set(Key::of_text(course_id), course);
        }
        if self.total_active > 0 {
            self.total_active = self.total_active - 1;
        }
        self.stats.set(
            Key::of_addr(instructor),
            InstructorStats { total_completions: st.total_completions + 1, ..st },
        );
        proof {
            match put {
                Some(cv) => lemma_cover_update(old(self)@, self@, course_id@, cv),
                None => lemma_cover_same(old(self)@, self@),
            }
        }
        Ok(needs_signature)
    }

    fn check_issuance(
        &self,
        now: u32,
        admin: Addr,
        student: Addr,
        course_id: &Vec<u8>,
        certificate_id: &Vec<u8>,
        course_title: &Vec<u8>,
        enrollment_reference: &Vec<u8>,
    ) -> (r: Option<ContractError>)
        requires
            self.wf(),
        ensures
            r == issuance_error(
                self@,
                now,
                admin,
                student,
                course_id@,
                certificate_id@,
                course_title@,
                enrollment_reference@,
            ),
    {
        match self.check_admin(now, admin) {
            Some(e) => {
                return Some(e);
            },
            None => {},
        }
        if certificate_id.len() == 0 {
            return Some(ContractError::CertificateIdEmpty);
        }
        if certificate_id.len() > MAX_COURSE_ID_LEN {
            return Some(ContractError::CertificateIdTooLong);
        }
        if course_title.len() > MAX_COURSE_TITLE_LEN {
            return Some(ContractError::TitleTooLong);
        }
        if enrollment_reference.len() == 0 {
            return Some(ContractError::ReferenceEmpty);
        }
        if enrollment_reference.len() > MAX_COURSE_ID_LEN {
            return Some(ContractError::ReferenceTooLong);
        }
        if Self::in_addr_set(&self.blocked_students, student) {
            return Some(ContractError::StudentBlockedFromCertificate);
        }
        let e = match self.enrollments.get(&Key::of_addr_text(student, course_id)) {
            None => {
                return Some(ContractError::EnrollmentNotFound);
            },
            Some(e) => e,
        };
        if !bytes_eq(&e.course_id, course_id) {
            return Some(ContractError::EnrollmentCourseMismatch);
        }
        if e.is_refunded {
            return Some(ContractError::CannotCertifyRefunded);
        }
        if !e.completed {
            return Some(ContractError::NotCompleted);
        }
        if e.certificate_issued {
            return Some(ContractError::CertificateAlreadyIssued);
        }
        if self.certificates.contains(&Key::of_text(certificate_id)) {
            return Some(ContractError::CertificateIdExists);
        }
        let c = match self.find_course(course_id) {
            None => {
                return Some(ContractError::CourseNotFound);
            },
            Some(c) => c,
        };
        match c.max_certificates {
            Some(m) => {
                if c.certificates_issued >= m {
                    return Some(ContractError::MaxCertificatesReached);
                }
            },
            None => {},
        }
        let total = match self.stats.get(&Key::of_addr(c.instructor)) {
            Some(x) => x.total_certificates,
            None => 0,
        };
        if c.certificates_issued == u32::MAX || total == u32::MAX {
            return Some(ContractError::Overflow);
        }
        None
    }

    /// Admin issues a certificate for a completed enrollment; returns its id.
    pub fn issue_certificate(
        &mut self,
        now: u32,
        contract: Addr,
        admin: Addr,
        student: Addr,
        course_id: &Vec<u8>,
        certificate_id: &Vec<u8>,
        course_title: &Vec<u8>,
        enrollment_reference: &Vec<u8>,
        expires_at_ledger: Option<u32>,
        instructor_signature: Option<[u8; 64]>,
    ) -> (r: Result<Vec<u8>, ContractError>)
        requires
            old(self).wf(),
        ensures
            final(self).wf(),
            committed(
                r,
                spec_issue_certificate(
                    old(self)@,
                    now,
                    contract,
                    admin,
                    student,
                    course_id@,
                    certificate_id@,
                    course_title@,
                    enrollment_reference@,
                    expires_at_ledger,
                    instructor_signature,
                ),
                old(self)@,
                final(self)@,
            ),
            r matches Ok(id) ==> id@ == certificate_id@,
    {
        match self.check_issuance(
            now,
            admin,
            student,
            course_id,
            certificate_id,
            course_title,
            enrollment_reference,
        ) {
            Some(e) => {
                return Err(e);
            },
            None => {},
        }
        let key = Key::of_addr_text(student, course_id);
        let mut enrollment = self.enrollments.get(&key).unwrap().duplicate();
        let mut course = self.find_course(course_id).unwrap().duplicate();
        let st = match self.stats.get(&Key::of_addr(course.instructor)) {
            Some(x) => *x,
            None => InstructorStats { total_students: 0, total_completions: 0, total_certificates: 0 },
        };
        let certificate = Certificate {
            id: copy_bytes(certificate_id),
            student: enrollment.student,
            course_id: copy_bytes(course_id),
            course_title: copy_bytes(course_title),
            enrollment_reference: copy_bytes(enrollment_reference),
            instructor: course.instructor,
            issued_by: contract,
            issued_at_ledger: now,
            revoked: false,
            revoked_by: None,
            revocation_ledger: None,
            revocation_reason: None,
            expires_at_ledger,
            instructor_signature,
            revocation_deadline: None,
        };
        self.certificates.set(Key::of_text(certificate_id), certificate);
        enrollment.certificate_issued = true;
        enrollment.certificate_id = Some(copy_bytes(certificate_id));
        self.enrollments.set(key, enrollment);
        let instructor = course.instructor;
        course.certificates_issued = course.certificates_issued + 1;
        course.last_updated_ledger = now;
        let ghost cv = course@;
        self.courses.set(Key::of_text(course_id), course);
        push_text(&mut self.course_certificates, Key::of_text(course_id), certificate_id);
        self.stats.set(
            Key::of_addr(instructor),
            InstructorStats { total_certificates: st.total_certificates + 1, ..st },
        );
        proof {
            lemma_cover_update(old(self)@, self@, course_id@, cv);
        }
        Ok(copy_bytes(certificate_id))
    }

    fn apply_revocation(&mut self, now: u32, admin: Addr, certificate_id: &Vec<u8>, reason: &Vec<u8>) -> (r:
        Result<bool, ContractError>)
        requires
            old(self).wf(),
        ensures
            final(self).wf(),
            match spec_apply_revocation(old(self)@, now, admin, certificate_id@, reason@) {
                Ok((s, b)) => r == Ok::<bool, ContractError>(b) && final(self)@ == s,
                Err(e) => r == Err::<bool, ContractError>(e) && final(self)@ == old(self)@,
            },
    {
        let key = Key::of_text(certificate_id);
        let mut cert = match self.certificates.get(&key) {
            None => {
                return Err(ContractError::CertificateNotFound);
            },
            Some(c) => c.duplicate(),
        };
        if cert.revoked {
            return Ok(false);
        }
        let deadline = match now.checked_add(self.challenge_period) {
            None => {
                return Err(ContractError::Overflow);
            },
            Some(d) => d,
        };
        cert.revoked = true;
        cert.revoked_by = Some(admin);
        cert.revocation_ledger = Some(now);
        cert.revocation_reason = Some(copy_bytes(reason));
        cert.revocation_deadline = Some(deadline);
        self.certificates.set(key, cert);
        Ok(true)
    }

    /// Admin revokes a certificate; the holder may challenge the revocation
    /// until the challenge period ends.
    pub fn revoke_certificate(
        &mut self,
        now: u32,
        admin: Addr,
        certificate_id: &Vec<u8>,
        reason: &Vec<u8>,
    ) -> (r: Result<(), ContractError>)
        requires
            old(self).wf(),
        ensures
            final(self).wf(),
            committed(
                r,
                spec_revoke_certificate(old(self)@, now, admin, certificate_id@, reason@),
                old(self)@,
                final(self)@,
            ),
    {
        match self.check_admin(now, admin) {
            Some(e) => {
                return Err(e);
            },
            None => {},
        }
        match self.certificates.get(&Key::of_text(certificate_id)) {
            None => {
                return Err(ContractError::CertificateNotFound);
            },
            Some(c) => {
                if c.revoked {
                    return Err(ContractError::AlreadyRevoked);
                }
            },
        }
        match self.apply_revocation(now, admin, certificate_id, reason) {
            Ok(_) => Ok(()),
            Err(e) => Err(e),
        }
    }

    /// Admin revokes every certificate of a course; already revoked ones
    /// are skipped. Returns how many were newly revoked.
    pub fn bulk_revoke_course_certificates(&mut self, now: u32, admin: Addr, course_id: &Vec<u8>) -> (r:
        Result<u32, ContractError>)
        requires
            old(self).wf(),
        ensures
            final(self).wf(),
            match spec_bulk_revoke(old(self)@, now, admin, course_id@) {
                Ok((s, n)) => r == Ok::<u32, ContractError>(n) && final(self)@ == s,
                Err(e) => r == Err::<u32, ContractError>(e) && final(self)@ == old(self)@,
            },
    {
        match self.check_admin(now, admin) {
            Some(e) => {
                return Err(e);
            },
            None => {},
        }
        if self.find_course(course_id).is_none() {
            return Err(ContractError::CourseNotFound);
        }
        let ids = match self.course_certificates.get(&Key::of_text(course_id)) {
            Some(l) => l.dup(),
            None => TextList { items: Vec::new() },
        };
        let ghost idv = texts_of(old(self)@.course_certificates, tkey(course_id@));
        assert(ids@ == idv) by {
            if !old(self)@.course_certificates.contains_key(tkey(course_id@)) {
                assert(ids@ =~= Seq::<Seq<u8>>::empty());
            }
        }
        assert(ids@.len() == ids.items.len());
        if ids.items.len() == 0 {
            return Err(ContractError::NoCertificates);
        }
        let reason: Vec<u8> = vec![66u8, 85, 76, 75, 95, 67, 79, 85, 82, 83, 69, 95, 82, 69, 86, 79, 67, 65, 84, 73, 79, 78];
        assert(reason@ =~= bulk_reason());
        let mut work = self.snapshot();
        let mut count: u32 = 0;
        let mut i: usize = 0;
        while i < ids.items.len()
            invariant
                work.wf(),
                self.wf(),
                self@ == old(self)@,
                i <= ids.items.len(),
                ids@ == idv,
                ids@.len() == ids.items.len(),
                reason@ == bulk_reason(),
                spec_bulk_revoke(old(self)@, now, admin, course_id@) == revoke_from(old(self)@, now, admin, idv, 0, 0),
                revoke_from(old(self)@, now, admin, idv, 0, 0) == revoke_from(
                    work@,
                    now,
                    admin,
                    idv,
                    i as int,
                    count,
                ),
            decreases ids.items.len() - i,
        {
            assert(idv[i as int] == ids.items@[i as int]@);
            let ghost w0 = work@;
            match work.apply_revocation(now, admin, &ids.items[i], &reason) {
                Err(e) => {
                    assert(revoke_from(w0, now, admin, idv, i as int, count) == Err::<(State, u32), ContractError>(e));
                    return Err(e);
                },
                Ok(fresh) => {
                    if fresh {
                        if count == u32::MAX {
                            assert(revoke_from(w0, now, admin, idv, i as int, count) == Err::<(State, u32), ContractError>(ContractError::Overflow));
                            return Err(ContractError::Overflow);
                        }
                        count = count + 1;
                    }
                },
            }
            i = i + 1;
        }
        *self = work;
        Ok(count)
    }

    /// The certificate holder challenges a pending revocation before its
    /// deadline, restoring the certificate.
    pub fn challenge_revocation(&mut self, now: u32, student: Addr, certificate_id: &Vec<u8>) -> (r:
        Result<(), ContractError>)
        requires
            old(self).wf(),
        ensures
            final(self).wf(),
            committed(
                r,
                spec_challenge_revocation(old(self)@, now, student, certificate_id@),
                old(self)@,
                final(self)@,
            ),
    {
        let key = Key::of_text(certificate_id);
        let mut cert = match self.certificates.get(&key) {
            None => {
                return Err(ContractError::CertificateNotFound);
            },
            Some(c) => c.duplicate(),
        };
        if cert.student != student {
            return Err(ContractError::NotCertificateHolder);
        }
        if !cert.revoked {
            return Err(ContractError::NoPendingRevocation);
        }
        let deadline = match cert.revocation_deadline {
            None => {
                return Err(ContractError::NoPendingRevocation);
            },
            Some(d) => d,
        };
        if now >= deadline {
            return Err(ContractError::ChallengeExpired);
        }
        cert.revoked = false;
        cert.revoked_by = None;
        cert.revocation_ledger = None;
        cert.revocation_reason = None;
        cert.revocation_deadline = None;
        self.certificates.set(key, cert);
        Ok(())
    }

    /// Whether a certificate exists, is not permanently revoked, and has
    /// not expired at `now`.
    pub fn verify_certificate(&self, now: u32, certificate_id: &Vec<u8>) -> (r: bool)
        requires
            self.wf(),
        ensures
            r == spec_verify_certificate(self@, now, certificate_id@),
    {
        match self.certificates.get(&Key::of_text(certificate_id)) {
            None => false,
            Some(c) => {
                let unexpired = match c.expires_at_ledger {
                    Some(x) => now < x,
                    None => true,
                };
                let standing = if c.revoked {
                    match c.revocation_deadline {
                        Some(d) => now < d,
                        None => false,
                    }
                } else {
                    true
                };
                standing && unexpired
            },
        }
    }

    /// Whether a student has completed a course: `None` without an
    /// enrollment record, else whether that record is marked completed.
    pub fn has_completed(&self, student: Addr, course_id: &Vec<u8>) -> (r: Option<bool>)
        requires
            self.wf(),
        ensures
            r == (if self@.enrollments.contains_key(atkey(student, course_id@)) {
                Some(self@.enrollments[atkey(student, course_id@)].completed)
            } else {
                None
            }),
    {
        match self.enrollments.get(&Key::of_addr_text(student, course_id)) {
            None => None,
            Some(e) => Some(e.completed),
        }
    }

    /// Whether a student holds an enrollment record for a course.
    pub fn is_enrolled(&self, student: Addr, course_id: &Vec<u8>) -> (r: bool)
        requires
            self.wf(),
        ensures
            r == self@.enrollments.contains_key(atkey(student, course_id@)),
    {
        self.enrollments.contains(&Key::of_addr_text(student, course_id))
    }

    fn check_enrollment_read(&self, caller: Addr, student: Addr, course_id: &Vec<u8>) -> (r: Option<
        ContractError,
    >)
        requires
            self.wf(),
        ensures
            r == enrollment_read_error(self@, caller, student, course_id@),
    {
        match self.find_course(course_id) {
            None => Some(ContractError::CourseNotFound),
            Some(c) => {
                if caller != student && !self.is_admin_addr(caller) && caller != c.instructor {
                    Some(ContractError::Unauthorized)
                } else {
                    None
                }
            },
        }
    }

    /// An enrollment record, readable by the student, the admin or the
    /// course's instructor.
    pub fn get_enrollment(&self, caller: Addr, student: Addr, course_id: &Vec<u8>) -> (r: Result<
        Option<Enrollment>,
        ContractError,
    >)
        requires
            self.wf(),
        ensures
            match enrollment_read_error(self@, caller, student, course_id@) {
                Some(e) => r == Err::<Option<Enrollment>, ContractError>(e),
                None => r matches Ok(o) && match o {
                    Some(e) => self@.enrollments.contains_key(atkey(student, course_id@))
                        && e@ == self@.enrollments[atkey(student, course_id@)],
                    None => !self@.enrollments.contains_key(atkey(student, course_id@)),
                },
            },
    {
        match self.check_enrollment_read(caller, student, course_id) {
            Some(e) => {
                return Err(e);
            },
            None => {},
        }
        match self.enrollments.get(&Key::of_addr_text(student, course_id)) {
            None => Ok(None),
            Some(e) => Ok(Some(e.duplicate())),
        }
    }

    /// The archived past attempts of a student in a course, with the same
    /// read rules as `get_enrollment`.
    pub fn get_enrollment_history(&self, caller: Addr, student: Addr, course_id: &Vec<u8>) -> (r: Result<
        Vec<Enrollment>,
        ContractError,
    >)
        requires
            self.wf(),
        ensures
            match enrollment_read_error(self@, caller, student, course_id@) {
                Some(e) => r == Err::<Vec<Enrollment>, ContractError>(e),
                None => r matches Ok(v) && v@.map_values(|e: Enrollment| e@) == (
                if self@.histories.contains_key(atkey(student, course_id@)) {
                    self@.histories[atkey(student, course_id@)]
                } else {
                    Seq::empty()
                }),
            },
    {
        match self.check_enrollment_read(caller, student, course_id) {
            Some(e) => {
                return Err(e);
            },
            None => {},
        }
        match self.histories.get(&Key::of_addr_text(student, course_id)) {
            None => {
                let v: Vec<Enrollment> = Vec::new();
                assert(v@.map_values(|e: Enrollment| e@) =~= Seq::<EnrollmentView>::empty());
                Ok(v)
            },
            Some(h) => Ok(h.dup().items),
        }
    }

    /// A certificate, readable by its student, the admin or its instructor.
    pub fn get_certificate(&self, caller: Addr, certificate_id: &Vec<u8>) -> (r: Result<
        Certificate,
        ContractError,
    >)
        requires
            self.wf(),
        ensures
            !self@.certificates.contains_key(tkey(certificate_id@)) ==> r
                == Err::<Certificate, ContractError>(ContractError::CertificateNotFound),
            self@.certificates.contains_key(tkey(certificate_id@)) ==> {
                let c = self@.certificates[tkey(certificate_id@)];
                if caller != c.student && !is_admin(self@, caller) && caller != c.instructor {
                    r == Err::<Certificate, ContractError>(ContractError::Unauthorized)
                } else {
                    r matches Ok(x) && x@ == c
                }
            },
    {
        let c = match self.certificates.get(&Key::of_text(certificate_id)) {
            None => {
                return Err(ContractError::CertificateNotFound);
            },
            Some(c) => c,
        };
        if caller != c.student && !self.is_admin_addr(caller) && caller != c.instructor {
            return Err(ContractError::Unauthorized);
        }
        Ok(c.duplicate())
    }
}

} // verus!
