use std::collections::HashMap;

use hamplard::model::{ContractError, CourseStatus, EnrollReceipt, Transfer};
use hamplard::state::HamplardContract;
use hamplard::table::Addr;

const CONTRACT: Addr = 1;
const TOKEN: Addr = 2;
const DECIMALS: u32 = 7;

/// Why a step of a scenario failed: the platform refused it, or a token
/// movement it ordered could not be made (the whole step is then undone).
#[derive(Debug, PartialEq)]
enum Fail {
    Contract(ContractError),
    Token,
}

fn s(t: &str) -> Vec<u8> {
    t.as_bytes().to_vec()
}

/// The platform together with a ledger clock and a token ledger.
struct World {
    c: HamplardContract,
    now: u32,
    balances: HashMap<(Addr, Addr), i128>,
    next: Addr,
    admin: Addr,
    sec_admin: Addr,
    treasury: Addr,
    instructor: Addr,
}

impl World {
    /// Deploys and initialises the platform: 20% fee, 50 courses per
    /// instructor, a 1000-ledger refund window; the payment token is
    /// approved.
    fn setup() -> World {
        World::setup_with_window(1000)
    }

    fn setup_with_window(window: u32) -> World {
        let mut w = World {
            c: HamplardContract::new(),
            now: 0,
            balances: HashMap::new(),
            next: 100,
            admin: 0,
            sec_admin: 0,
            treasury: 0,
            instructor: 0,
        };
        w.admin = w.generate();
        w.sec_admin = w.generate();
        w.treasury = w.generate();
        w.instructor = w.generate();
        let student = w.generate();
        w.mint(student, 100_000_000_000);
        w.c.init(0, CONTRACT, w.admin, w.sec_admin, w.treasury, 20, 50, window, 0).unwrap();
        w.c.add_approved_token(0, w.admin, TOKEN).unwrap();
        w
    }

    fn generate(&mut self) -> Addr {
        self.next += 1;
        self.next
    }

    fn mint(&mut self, who: Addr, amount: i128) {
        self.mint_token(TOKEN, who, amount);
    }

    fn mint_token(&mut self, token: Addr, who: Addr, amount: i128) {
        *self.balances.entry((token, who)).or_insert(0) += amount;
    }

    fn balance(&self, who: Addr) -> i128 {
        *self.balances.get(&(TOKEN, who)).unwrap_or(&0)
    }

    fn advance(&mut self, ledgers: u32) {
        self.now += ledgers;
    }

    /// Makes the transfers in order, all or none.
    fn pay(&mut self, ts: &[Transfer]) -> Result<(), Fail> {
        let mut next = self.balances.clone();
        for t in ts {
            let from = *next.get(&(t.token, t.from)).unwrap_or(&0);
            if t.amount < 0 || from < t.amount {
                return Err(Fail::Token);
            }
            next.insert((t.token, t.from), from - t.amount);
            *next.entry((t.token, t.to)).or_insert(0) += t.amount;
        }
        self.balances = next;
        Ok(())
    }

    fn register(&mut self, instructor: Addr, id: &str, price: i128) -> Result<Vec<u8>, ContractError> {
        self.register_full(instructor, id, price, TOKEN, 0, None)
    }

    fn register_full(
        &mut self,
        instructor: Addr,
        id: &str,
        price: i128,
        token: Addr,
        fee_pct: u32,
        cap: Option<u32>,
    ) -> Result<Vec<u8>, ContractError> {
        self.c.register_course(self.now, instructor, &s(id), price, token, DECIMALS, fee_pct, cap, [0u8; 32])
    }

    /// Registers a course, moves one ledger on and approves it.
    fn register_and_approve(&mut self, instructor: Addr, id: &str, price: i128) {
        self.register(instructor, id, price).unwrap();
        self.advance(1);
        self.c.approve_course(self.now, self.admin, &s(id)).unwrap();
    }

    fn approve(&mut self, id: &str) -> Result<(), ContractError> {
        self.c.approve_course(self.now, self.admin, &s(id))
    }

    fn enroll(&mut self, student: Addr, id: &str) -> Result<EnrollReceipt, Fail> {
        let before = self.c.snapshot();
        let rc = self.c.enroll(self.now, CONTRACT, student, &s(id), DECIMALS).map_err(Fail::Contract)?;
        let mut ts = Vec::new();
        if let Some(p) = rc.payment {
            ts.push(p);
        }
        if let Some(f) = rc.fee_transfer {
            ts.push(f);
        }
        if let Err(e) = self.pay(&ts) {
            self.c = before;
            return Err(e);
        }
        Ok(rc)
    }

    fn batch_enroll(&mut self, student: Addr, ids: &[&str]) -> Result<Vec<EnrollReceipt>, Fail> {
        let before = self.c.snapshot();
        let list: Vec<Vec<u8>> = ids.iter().map(|i| s(i)).collect();
        let decimals: Vec<u32> = ids.iter().map(|_| DECIMALS).collect();
        let rcs = self.c.batch_enroll(self.now, CONTRACT, student, &list, &decimals).map_err(Fail::Contract)?;
        let mut ts = Vec::new();
        for rc in &rcs {
            if let Some(p) = rc.payment {
                ts.push(p);
            }
            if let Some(f) = rc.fee_transfer {
                ts.push(f);
            }
        }
        if let Err(e) = self.pay(&ts) {
            self.c = before;
            return Err(e);
        }
        Ok(rcs)
    }

    fn re_enroll(&mut self, student: Addr, id: &str) -> Result<EnrollReceipt, Fail> {
        let before = self.c.snapshot();
        let rc = self.c.re_enroll(self.now, CONTRACT, student, &s(id)).map_err(Fail::Contract)?;
        let mut ts = Vec::new();
        if let Some(p) = rc.payment {
            ts.push(p);
        }
        if let Some(f) = rc.fee_transfer {
            ts.push(f);
        }
        if let Err(e) = self.pay(&ts) {
            self.c = before;
            return Err(e);
        }
        Ok(rc)
    }

    fn complete(&mut self, student: Addr, id: &str, evidence: Option<&str>) -> Result<bool, ContractError> {
        self.c.mark_completed(self.now, self.admin, student, &s(id), evidence.map(s))
    }

    fn issue(&mut self, student: Addr, id: &str, cert: &str, title: &str) -> Result<Vec<u8>, ContractError> {
        self.c.issue_certificate(
            self.now,
            CONTRACT,
            self.admin,
            student,
            &s(id),
            &s(cert),
            &s(title),
            &student.to_string().into_bytes(),
            None,
            None,
        )
    }

    fn withdraw(&mut self, instructor: Addr, amount: i128) -> Result<(), Fail> {
        let before = self.c.snapshot();
        let t = self.c.withdraw_earnings(CONTRACT, instructor, TOKEN, amount).map_err(Fail::Contract)?;
        if let Some(t) = t {
            if let Err(e) = self.pay(&[t]) {
                self.c = before;
                return Err(e);
            }
        }
        Ok(())
    }

    fn archive(&mut self, id: &str, students: Option<Vec<Addr>>) -> Result<(), Fail> {
        let before = self.c.snapshot();
        let ts = self
            .c
            .archive_course(self.now, CONTRACT, self.admin, self.sec_admin, &s(id), &students)
            .map_err(Fail::Contract)?;
        if let Err(e) = self.pay(&ts) {
            self.c = before;
            return Err(e);
        }
        Ok(())
    }

    fn process_refund(&mut self, admin: Addr, student: Addr, id: &str, approved: bool) -> Result<(), Fail> {
        let before = self.c.snapshot();
        let ts = self
            .c
            .process_refund(self.now, CONTRACT, admin, student, &s(id), approved)
            .map_err(Fail::Contract)?;
        if let Err(e) = self.pay(&ts) {
            self.c = before;
            return Err(e);
        }
        Ok(())
    }

    fn status(&self, id: &str) -> CourseStatus {
        self.c.get_course(&s(id)).unwrap().status
    }

    fn earnings(&self, instructor: Addr) -> i128 {
        self.c.get_instructor_earnings(instructor, TOKEN)
    }

    fn fee(&self) -> u32 {
        self.c.get_platform_fee(self.now, self.admin).unwrap()
    }
}

// ------------------------------------------------------------------
// Initialisation
// ------------------------------------------------------------------

#[test]
fn test_init_success() {
    let w = World::setup();
    assert_eq!(w.c.get_platform_fee(w.now, w.admin), Ok(20));
}

#[test]
fn test_admin_instance_ttl_extended_on_admin_ops() {
    let mut w = World::setup();
    w.advance(50_000);
    w.c.update_default_fee(w.now, w.admin, 25).unwrap();
    assert_eq!(w.c.get_platform_fee(w.now, w.admin), Ok(25));
}

#[test]
fn test_treasury_instance_ttl_extended_on_transfer_admin() {
    let mut w = World::setup();
    let new_admin = w.generate();
    w.advance(50_000);
    let new_sec = w.generate();
    w.c.transfer_admin(w.now, w.admin, w.sec_admin, new_admin, new_sec).unwrap();
    w.c.accept_admin(new_admin, new_sec).unwrap();
    w.c.update_default_fee(w.now, new_admin, 30).unwrap();
    assert_eq!(w.c.get_platform_fee(w.now, new_admin), Ok(30));
}

// ------------------------------------------------------------------
// Course registration and approval
// ------------------------------------------------------------------

#[test]
fn test_register_course_success() {
    let mut w = World::setup();
    let instructor = w.instructor;
    w.register(instructor, "COURSE-TAILORING-001", 50_000_000).unwrap();
    let course = w.c.get_course(&s("COURSE-TAILORING-001")).unwrap();
    assert_eq!(course.status, CourseStatus::Pending);
    assert_eq!(course.price, 50_000_000);
    assert_eq!(course.platform_fee_percent, 20);
    assert_eq!(course.total_enrollments, 0);
}

#[test]
fn test_register_course_custom_fee() {
    let mut w = World::setup();
    let instructor = w.instructor;
    w.register_full(instructor, "COURSE-MAKEUP-001", 100_000_000, TOKEN, 30, None).unwrap();
    let course = w.c.get_course(&s("COURSE-MAKEUP-001")).unwrap();
    assert_eq!(course.platform_fee_percent, 30);
}

#[test]
fn test_get_course_returns_none_for_nonexistent_id() {
    let w = World::setup();
    assert!(w.c.get_course(&s("COURSE-NOT-FOUND")).is_none());
}

#[test]
fn test_register_duplicate_course() {
    let mut w = World::setup();
    let instructor = w.instructor;
    w.register(instructor, "COURSE-DUP", 50_000_000).unwrap();
    assert_eq!(
        w.register(instructor, "COURSE-DUP", 50_000_000),
        Err(ContractError::CourseAlreadyRegistered)
    );
}

#[test]
fn test_approve_course_success() {
    let mut w = World::setup();
    let instructor = w.instructor;
    w.register(instructor, "COURSE-BAKING-001", 75_000_000).unwrap();
    w.approve("COURSE-BAKING-001").unwrap();
    assert_eq!(w.status("COURSE-BAKING-001"), CourseStatus::Active);
}

#[test]
fn test_approve_course_unauthorized() {
    let mut w = World::setup();
    let instructor = w.instructor;
    w.register(instructor, "COURSE-HAIR-001", 60_000_000).unwrap();
    assert_eq!(
        w.c.approve_course(w.now, instructor, &s("COURSE-HAIR-001")),
        Err(ContractError::NotAdminOrApprover)
    );
}

#[test]
fn test_approve_already_active_course() {
    let mut w = World::setup();
    let instructor = w.instructor;
    w.register(instructor, "COURSE-NAILS-001", 50_000_000).unwrap();
    w.approve("COURSE-NAILS-001").unwrap();
    assert_eq!(w.approve("COURSE-NAILS-001"), Err(ContractError::CourseNotPending));
}

// ------------------------------------------------------------------
// Enrollment and payment
// ------------------------------------------------------------------

#[test]
fn test_enroll_success_with_payment_split() {
    let mut w = World::setup();
    let (instructor, treasury) = (w.instructor, w.treasury);
    let student = w.generate();
    w.mint(student, 100_000_000_000);
    let price: i128 = 1_000_000_000;
    w.register_and_approve(instructor, "COURSE-FASHION-001", price);
    let before = w.balance(student);
    w.enroll(student, "COURSE-FASHION-001").unwrap();
    let platform_share = price * 20 / 100;
    let instructor_share = price - platform_share;
    assert_eq!(w.balance(treasury), platform_share);
    assert_eq!(w.balance(instructor), 0);
    assert_eq!(w.earnings(instructor), instructor_share);
    assert_eq!(w.balance(student), before - price);
    let e = w.c.get_enrollment(student, student, &s("COURSE-FASHION-001")).unwrap().unwrap();
    assert_eq!(e.amount_paid, price);
    assert!(!e.completed);
    assert!(!e.certificate_issued);
    let course = w.c.get_course(&s("COURSE-FASHION-001")).unwrap();
    assert_eq!(course.total_enrollments, 1);
    assert_eq!(course.total_earned, price);
}

#[test]
fn test_enroll_rejects_before_enrollment_start_ledger() {
    let mut w = World::setup();
    let instructor = w.instructor;
    let student = w.generate();
    w.mint(student, 100_000_000_000);
    w.register_and_approve(instructor, "COURSE-GRACE-BEFORE", 100_000_000);
    let start = w.now + 10;
    w.c.set_enrollment_start_ledger(w.now, instructor, &s("COURSE-GRACE-BEFORE"), Some(start)).unwrap();
    assert_eq!(
        w.enroll(student, "COURSE-GRACE-BEFORE").err(),
        Some(Fail::Contract(ContractError::EnrollmentNotStarted))
    );
}

#[test]
fn test_enroll_succeeds_at_enrollment_start_ledger() {
    let mut w = World::setup();
    let instructor = w.instructor;
    let student = w.generate();
    w.mint(student, 100_000_000_000);
    w.register_and_approve(instructor, "COURSE-GRACE-AFTER", 100_000_000);
    let start = w.now + 10;
    w.c.set_enrollment_start_ledger(w.now, instructor, &s("COURSE-GRACE-AFTER"), Some(start)).unwrap();
    w.now = start;
    w.enroll(student, "COURSE-GRACE-AFTER").unwrap();
    let e = w.c.get_enrollment(student, student, &s("COURSE-GRACE-AFTER")).unwrap().unwrap();
    assert_eq!(e.enrolled_at_ledger, start);
    assert_eq!(w.c.get_course(&s("COURSE-GRACE-AFTER")).unwrap().total_enrollments, 1);
}

#[test]
fn test_enroll_succeeds_when_instructor_is_contract_address() {
    let mut w = World::setup();
    let treasury = w.treasury;
    // An instructor account that could not receive tokens: payouts are
    // pull-based, so enrollment does not pay it anything.
    let instructor = w.generate();
    let student = w.generate();
    w.mint(student, 100_000_000_000);
    let price: i128 = 1_000_000_000;
    w.register_and_approve(instructor, "COURSE-CONTRACT-INSTRUCTOR-001", price);
    let rc = w.enroll(student, "COURSE-CONTRACT-INSTRUCTOR-001").unwrap();
    assert!(rc.payment.unwrap().to == CONTRACT && rc.fee_transfer.unwrap().to == treasury);
    let platform_share = price * 20 / 100;
    assert_eq!(w.balance(treasury), platform_share);
    assert_eq!(w.earnings(instructor), price - platform_share);
}

#[test]
fn test_enroll_uses_registered_course_fee_when_default_fee_changes() {
    let mut w = World::setup();
    let (instructor, treasury, admin) = (w.instructor, w.treasury, w.admin);
    let student = w.generate();
    w.mint(student, 100_000_000_000);
    let price: i128 = 1_000_000_000;
    w.register(instructor, "COURSE-FEE-UPDATE-001", price).unwrap();
    assert_eq!(w.fee(), 20);
    w.c.update_default_fee(w.now, admin, 35).unwrap();
    assert_eq!(w.fee(), 35);
    w.approve("COURSE-FEE-UPDATE-001").unwrap();
    w.advance(1);
    w.enroll(student, "COURSE-FEE-UPDATE-001").unwrap();
    let platform_share = price * 35 / 100;
    assert_eq!(w.balance(treasury), platform_share);
    assert_eq!(w.earnings(instructor), price - platform_share);
}

#[test]
fn test_enroll_fee_uses_live_default_fee() {
    let mut w = World::setup();
    let (instructor, treasury, admin) = (w.instructor, w.treasury, w.admin);
    let student = w.generate();
    w.mint(student, 100_000_000_000);
    let price: i128 = 1_000_000_000;
    w.register_full(instructor, "COURSE-CUSTOM-FEE", price, TOKEN, 40, None).unwrap();
    assert_eq!(w.fee(), 20);
    w.c.update_default_fee(w.now, admin, 10).unwrap();
    assert_eq!(w.fee(), 10);
    w.approve("COURSE-CUSTOM-FEE").unwrap();
    w.advance(1);
    w.enroll(student, "COURSE-CUSTOM-FEE").unwrap();
    let platform_share = price * 10 / 100;
    assert_eq!(w.balance(treasury), platform_share);
    assert_eq!(w.earnings(instructor), price - platform_share);
}

#[test]
fn test_enroll_zero_price_free_course() {
    let mut w = World::setup();
    let instructor = w.instructor;
    let student = w.generate();
    w.register_and_approve(instructor, "COURSE-FREE-001", 0);
    let rc = w.enroll(student, "COURSE-FREE-001").unwrap();
    assert!(rc.payment.is_none() && rc.fee_transfer.is_none());
    let e = w.c.get_enrollment(student, student, &s("COURSE-FREE-001")).unwrap().unwrap();
    assert_eq!(e.amount_paid, 0);
    let course = w.c.get_course(&s("COURSE-FREE-001")).unwrap();
    assert_eq!(course.total_enrollments, 1);
    assert_eq!(course.total_earned, 0);
}

#[test]
fn test_enroll_fee_overflow() {
    let mut w = World::setup();
    let (instructor, admin) = (w.instructor, w.admin);
    let overflow_price: i128 = i128::MAX / 100 + 1;
    w.register_full(instructor, "COURSE-OVERFLOW-001", 100_000_000, TOKEN, 100, None).unwrap();
    w.approve("COURSE-OVERFLOW-001").unwrap();
    // A stored course that somehow carries an out-of-range price.
    let mut course = w.c.get_course(&s("COURSE-OVERFLOW-001")).unwrap();
    course.price = overflow_price;
    w.c.put_course(&s("COURSE-OVERFLOW-001"), course);
    w.advance(1);
    let student = w.generate();
    w.mint(student, overflow_price);
    w.c.update_default_fee(w.now, admin, 100).unwrap();
    assert_eq!(
        w.enroll(student, "COURSE-OVERFLOW-001").err(),
        Some(Fail::Contract(ContractError::Overflow))
    );
}

#[test]
fn test_enroll_duplicate() {
    let mut w = World::setup();
    let instructor = w.instructor;
    let student = w.generate();
    w.mint(student, 100_000_000_000);
    w.register_and_approve(instructor, "COURSE-PHOTO-001", 500_000_000);
    w.enroll(student, "COURSE-PHOTO-001").unwrap();
    assert_eq!(
        w.enroll(student, "COURSE-PHOTO-001").err(),
        Some(Fail::Contract(ContractError::AlreadyEnrolled))
    );
}

#[test]
fn test_enroll_admin_rejected() {
    let mut w = World::setup();
    let (instructor, admin) = (w.instructor, w.admin);
    w.mint(admin, 100_000_000_000);
    w.register_and_approve(instructor, "COURSE-PHOTO-001", 500_000_000);
    assert_eq!(
        w.enroll(admin, "COURSE-PHOTO-001").err(),
        Some(Fail::Contract(ContractError::AdminCannotEnroll))
    );
}

#[test]
fn test_enrollment_receipt_event_emitted_with_payment_breakdown() {
    let mut w = World::setup();
    let instructor = w.instructor;
    let student = w.generate();
    w.mint(student, 100_000_000_000);
    let price: i128 = 1_000_000_000;
    w.register_and_approve(instructor, "COURSE-EVENT-001", price);
    let ledger_before = w.now;
    let rc = w.enroll(student, "COURSE-EVENT-001").unwrap();
    // The receipt carries what the enrollment event publishes.
    assert_eq!(rc.student, student);
    assert_eq!(rc.price, price);
    let expected_platform_fee = price * 20 / 100;
    assert_eq!(rc.platform_amount, expected_platform_fee);
    assert_eq!(rc.instructor_amount, price - expected_platform_fee);
    let e = w.c.get_enrollment(student, student, &s("COURSE-EVENT-001")).unwrap().unwrap();
    assert!(e.enrolled_at_ledger >= ledger_before);
}

#[test]
fn test_enroll_pending_course() {
    let mut w = World::setup();
    let instructor = w.instructor;
    let student = w.generate();
    w.mint(student, 100_000_000_000);
    w.register(instructor, "COURSE-PENDING", 500_000_000).unwrap();
    assert_eq!(
        w.enroll(student, "COURSE-PENDING").err(),
        Some(Fail::Contract(ContractError::CourseNotAvailable))
    );
}

#[test]
fn test_enroll_same_ledger_as_registration_rejected() {
    let mut w = World::setup();
    let instructor = w.instructor;
    let student = w.generate();
    w.mint(student, 100_000_000_000);
    w.register(instructor, "COURSE-SAME-LEDGER", 500_000_000).unwrap();
    w.approve("COURSE-SAME-LEDGER").unwrap();
    assert_eq!(
        w.enroll(student, "COURSE-SAME-LEDGER").err(),
        Some(Fail::Contract(ContractError::SameLedgerEnrollment))
    );
}

#[test]
fn test_instructor_self_enrollment_rejected() {
    let mut w = World::setup();
    let instructor = w.instructor;
    w.mint(instructor, 100_000_000_000);
    w.register_and_approve(instructor, "COURSE-SELF-ENROLL", 500_000_000);
    assert_eq!(
        w.enroll(instructor, "COURSE-SELF-ENROLL").err(),
        Some(Fail::Contract(ContractError::InstructorSelfEnroll))
    );
}

#[test]
fn test_is_enrolled_check() {
    let mut w = World::setup();
    let instructor = w.instructor;
    let student = w.generate();
    w.mint(student, 100_000_000_000);
    w.register_and_approve(instructor, "COURSE-LASH-001", 300_000_000);
    assert!(!w.c.is_enrolled(student, &s("COURSE-LASH-001")));
    w.enroll(student, "COURSE-LASH-001").unwrap();
    assert!(w.c.is_enrolled(student, &s("COURSE-LASH-001")));
}

// ------------------------------------------------------------------
// Completion and certificates
// ------------------------------------------------------------------

#[test]
fn test_full_lifecycle_enroll_complete_certify() {
    let mut w = World::setup();
    let instructor = w.instructor;
    let student = w.generate();
    w.mint(student, 100_000_000_000);
    let id = "COURSE-TAILORING-001";
    w.register_and_approve(instructor, id, 500_000_000);
    assert_eq!(w.c.has_completed(student, &s(id)), None);
    w.enroll(student, id).unwrap();
    assert_eq!(w.c.has_completed(student, &s(id)), Some(false));
    w.complete(student, id, Some("evidence_hash")).unwrap();
    assert_eq!(w.c.has_completed(student, &s(id)), Some(true));
    w.issue(student, id, "CERT-12345-TAILORING", "Professional Tailoring").unwrap();
    assert!(w.c.verify_certificate(w.now, &s("CERT-12345-TAILORING")));
    let cert = w.c.get_certificate(student, &s("CERT-12345-TAILORING")).unwrap();
    assert_eq!(cert.student, student);
    assert!(!cert.revoked);
    assert_eq!(cert.course_id, s(id));
    let e = w.c.get_enrollment(student, student, &s(id)).unwrap().unwrap();
    assert!(e.certificate_issued);
}

#[test]
fn test_certificate_requires_completion() {
    let mut w = World::setup();
    let instructor = w.instructor;
    let student = w.generate();
    w.mint(student, 100_000_000_000);
    w.register_and_approve(instructor, "COURSE-NAILS-001", 400_000_000);
    w.enroll(student, "COURSE-NAILS-001").unwrap();
    assert_eq!(
        w.issue(student, "COURSE-NAILS-001", "CERT-EARLY", "Nail Technology"),
        Err(ContractError::NotCompleted)
    );
}

#[test]
fn test_revoke_certificate() {
    let mut w = World::setup();
    let (instructor, admin) = (w.instructor, w.admin);
    let student = w.generate();
    w.mint(student, 100_000_000_000);
    let id = "COURSE-MAKEUP-001";
    w.register_and_approve(instructor, id, 600_000_000);
    w.enroll(student, id).unwrap();
    w.complete(student, id, Some("evidence_hash")).unwrap();
    w.issue(student, id, "CERT-REVOKE-TEST", "Makeup Artistry").unwrap();
    assert!(w.c.verify_certificate(w.now, &s("CERT-REVOKE-TEST")));
    w.c.revoke_certificate(w.now, admin, &s("CERT-REVOKE-TEST"), &s("ACADEMIC_DISHONESTY")).unwrap();
    assert!(!w.c.verify_certificate(w.now, &s("CERT-REVOKE-TEST")));
    let cert = w.c.get_certificate(admin, &s("CERT-REVOKE-TEST")).unwrap();
    assert!(cert.revoked);
    assert_eq!(cert.revoked_by, Some(admin));
    assert!(cert.revocation_ledger.is_some());
    assert_eq!(cert.revocation_reason, Some(s("ACADEMIC_DISHONESTY")));
}

#[test]
fn test_revoke_certificate_metadata_persisted() {
    let mut w = World::setup();
    let (instructor, admin) = (w.instructor, w.admin);
    let student = w.generate();
    w.mint(student, 100_000_000_000);
    let id = "COURSE-AUDIT-001";
    w.register_and_approve(instructor, id, 500_000_000);
    w.enroll(student, id).unwrap();
    w.complete(student, id, Some("proof")).unwrap();
    w.issue(student, id, "CERT-AUDIT-TEST", "Audit Course").unwrap();
    let before = w.c.get_certificate(admin, &s("CERT-AUDIT-TEST")).unwrap();
    assert!(!before.revoked);
    assert!(before.revoked_by.is_none());
    assert!(before.revocation_ledger.is_none());
    assert!(before.revocation_reason.is_none());
    let ledger_before = w.now;
    w.c.revoke_certificate(w.now, admin, &s("CERT-AUDIT-TEST"), &s("ISSUED_IN_ERROR")).unwrap();
    let after = w.c.get_certificate(admin, &s("CERT-AUDIT-TEST")).unwrap();
    assert!(after.revoked);
    assert_eq!(after.revoked_by, Some(admin));
    assert!(after.revocation_ledger.unwrap() >= ledger_before);
    assert_eq!(after.revocation_reason, Some(s("ISSUED_IN_ERROR")));
}

#[test]
fn test_issue_certificate_with_instructor_signature() {
    let mut w = World::setup();
    let (instructor, admin) = (w.instructor, w.admin);
    let student = w.generate();
    w.mint(student, 100_000_000_000);
    let id = "COURSE-SIGNED-001";
    w.register_and_approve(instructor, id, 500_000_000);
    w.enroll(student, id).unwrap();
    w.complete(student, id, Some("evidence_hash")).unwrap();
    let signature = [7u8; 64];
    w.c.issue_certificate(
        w.now,
        CONTRACT,
        admin,
        student,
        &s(id),
        &s("CERT-SIGNED-001"),
        &s("Signed Course"),
        &student.to_string().into_bytes(),
        None,
        Some(signature),
    )
    .unwrap();
    let cert = w.c.get_certificate(admin, &s("CERT-SIGNED-001")).unwrap();
    assert_eq!(cert.instructor_signature, Some(signature));
}

#[test]
fn test_issue_certificate_without_instructor_signature() {
    let mut w = World::setup();
    let (instructor, admin) = (w.instructor, w.admin);
    let student = w.generate();
    w.mint(student, 100_000_000_000);
    let id = "COURSE-UNSIGNED-001";
    w.register_and_approve(instructor, id, 500_000_000);
    w.enroll(student, id).unwrap();
    w.complete(student, id, Some("evidence_hash")).unwrap();
    w.issue(student, id, "CERT-UNSIGNED-001", "Unsigned Course").unwrap();
    let cert = w.c.get_certificate(admin, &s("CERT-UNSIGNED-001")).unwrap();
    assert!(cert.instructor_signature.is_none());
}

// ------------------------------------------------------------------
// Pause / unpause
// ------------------------------------------------------------------

#[test]
fn test_pause_and_unpause_course() {
    let mut w = World::setup();
    let (instructor, admin) = (w.instructor, w.admin);
    w.register_and_approve(instructor, "COURSE-BAKING-001", 250_000_000);
    w.c.pause_course(w.now, instructor, &s("COURSE-BAKING-001")).unwrap();
    assert_eq!(w.status("COURSE-BAKING-001"), CourseStatus::Paused);
    w.c.unpause_course(w.now, admin, &s("COURSE-BAKING-001")).unwrap();
    assert_eq!(w.status("COURSE-BAKING-001"), CourseStatus::Active);
}

#[test]
fn test_pause_course_double_pause_rejected() {
    let mut w = World::setup();
    let instructor = w.instructor;
    w.register_and_approve(instructor, "COURSE-DOUBLE-PAUSE", 100_000_000);
    w.c.pause_course(w.now, instructor, &s("COURSE-DOUBLE-PAUSE")).unwrap();
    assert_eq!(w.status("COURSE-DOUBLE-PAUSE"), CourseStatus::Paused);
    assert_eq!(
        w.c.pause_course(w.now, instructor, &s("COURSE-DOUBLE-PAUSE")),
        Err(ContractError::CourseNotActive)
    );
}

#[test]
fn test_update_platform_fee() {
    let mut w = World::setup();
    let admin = w.admin;
    assert_eq!(w.fee(), 20);
    w.c.update_default_fee(w.now, admin, 25).unwrap();
    assert_eq!(w.fee(), 25);
}

#[test]
fn test_multiple_students_same_course() {
    let mut w = World::setup();
    let instructor = w.instructor;
    w.register_and_approve(instructor, "COURSE-HAIR-001", 200_000_000);
    for _ in 0..5 {
        let st = w.generate();
        w.mint(st, 1_000_000_000);
        w.enroll(st, "COURSE-HAIR-001").unwrap();
    }
    let course = w.c.get_course(&s("COURSE-HAIR-001")).unwrap();
    assert_eq!(course.total_enrollments, 5);
    assert_eq!(course.total_earned, 5 * 200_000_000);
}

#[test]
fn test_instructor_total_earnings_across_courses() {
    let mut w = World::setup();
    let instructor = w.instructor;
    let student_a = w.generate();
    let student_b = w.generate();
    w.mint(student_a, 1_000_000_000);
    w.mint(student_b, 1_000_000_000);
    w.register_and_approve(instructor, "COURSE-TOTAL-1", 400_000_000);
    w.register_and_approve(instructor, "COURSE-TOTAL-2", 600_000_000);
    w.enroll(student_a, "COURSE-TOTAL-1").unwrap();
    w.enroll(student_b, "COURSE-TOTAL-2").unwrap();
    let (p1, p2): (i128, i128) = (400_000_000, 600_000_000);
    let expected = (p1 - p1 * 20 / 100) + (p2 - p2 * 20 / 100);
    assert_eq!(w.earnings(instructor), expected);
    assert_eq!(w.c.get_instructor_total_earnings(instructor), expected);
}

#[test]
fn test_mark_completed_no_evidence_requires_student_auth() {
    let mut w = World::setup();
    let instructor = w.instructor;
    let student = w.generate();
    w.mint(student, 1_000_000_000);
    w.register_and_approve(instructor, "COURSE-AUTH-1", 100_000_000);
    w.enroll(student, "COURSE-AUTH-1").unwrap();
    // Without evidence the student's signature is required.
    assert_eq!(w.complete(student, "COURSE-AUTH-1", None), Ok(true));
}

#[test]
fn test_mark_completed_with_evidence_does_not_require_student_auth() {
    let mut w = World::setup();
    let instructor = w.instructor;
    let student = w.generate();
    w.mint(student, 1_000_000_000);
    w.register_and_approve(instructor, "COURSE-AUTH-2", 100_000_000);
    w.enroll(student, "COURSE-AUTH-2").unwrap();
    assert_eq!(w.complete(student, "COURSE-AUTH-2", Some("some_evidence_hash")), Ok(false));
    let e = w.c.get_enrollment(student, student, &s("COURSE-AUTH-2")).unwrap().unwrap();
    assert_eq!(e.evidence_hash, Some(s("some_evidence_hash")));
}

#[test]
fn test_mark_completed_rejects_mismatched_enrollment_course_id() {
    let mut w = World::setup();
    let (instructor, admin) = (w.instructor, w.admin);
    let student = w.generate();
    w.mint(student, 1_000_000_000);
    let id = "COURSE-COMPLETE-MISMATCH";
    w.register_and_approve(instructor, id, 100_000_000);
    w.enroll(student, id).unwrap();
    let mut e = w.c.get_enrollment(admin, student, &s(id)).unwrap().expect("enrollment should exist");
    e.course_id = s("COURSE-COMPLETE-OTHER");
    w.c.enrollments.set(hamplard::table::Key::of_addr_text(student, &s(id)), e);
    assert_eq!(w.complete(student, id, Some("proof")), Err(ContractError::EnrollmentCourseMismatch));
}

// ------------------------------------------------------------------
// Archiving
// ------------------------------------------------------------------

#[test]
fn test_archive_course_blocked_by_active_enrollment() {
    let mut w = World::setup();
    let instructor = w.instructor;
    let student = w.generate();
    w.mint(student, 1_000_000_000);
    w.register_and_approve(instructor, "COURSE-ARCHIVE-1", 100_000_000);
    w.enroll(student, "COURSE-ARCHIVE-1").unwrap();
    assert_eq!(
        w.archive("COURSE-ARCHIVE-1", None),
        Err(Fail::Contract(ContractError::CourseMustBePaused))
    );
}

#[test]
fn test_archive_course_with_refunds() {
    let mut w = World::setup();
    let (instructor, treasury, admin) = (w.instructor, w.treasury, w.admin);
    let student_a = w.generate();
    let student_b = w.generate();
    w.mint(student_a, 1_000_000_000);
    w.mint(student_b, 1_000_000_000);
    let price: i128 = 500_000_000;
    let id = "COURSE-REFUND";
    w.register_and_approve(instructor, id, price);
    w.enroll(student_a, id).unwrap();
    w.enroll(student_b, id).unwrap();
    assert_eq!(w.balance(student_a), 500_000_000);
    assert_eq!(w.balance(student_b), 500_000_000);
    assert_eq!(w.balance(treasury), price * 20 / 100 * 2);
    assert_eq!(w.balance(instructor), 0);
    assert_eq!(w.earnings(instructor), (price - price * 20 / 100) * 2);
    w.c.pause_course(w.now, admin, &s(id)).unwrap();
    w.archive(id, Some(vec![student_a, student_b])).unwrap();
    assert_eq!(w.balance(student_a), 1_000_000_000);
    assert_eq!(w.balance(student_b), 1_000_000_000);
    assert_eq!(w.balance(treasury), 0);
    assert_eq!(w.balance(instructor), 0);
    assert_eq!(w.earnings(instructor), 0);
    let course = w.c.get_course(&s(id)).unwrap();
    assert_eq!(course.status, CourseStatus::Archived);
    assert_eq!(course.active_enrollments, 0);
    assert!(!w.c.is_enrolled(student_a, &s(id)));
    assert!(!w.c.is_enrolled(student_b, &s(id)));
}

#[test]
fn test_enroll_insufficient_funds_rollback() {
    let mut w = World::setup();
    let (instructor, treasury) = (w.instructor, w.treasury);
    let student = w.generate();
    w.register_and_approve(instructor, "COURSE-ROLLBACK", 500_000_000);
    w.mint(student, 150_000_000);
    assert_eq!(w.enroll(student, "COURSE-ROLLBACK").err(), Some(Fail::Token));
    assert_eq!(w.balance(treasury), 0);
    assert_eq!(w.balance(student), 150_000_000);
    assert!(!w.c.is_enrolled(student, &s("COURSE-ROLLBACK")));
}

#[test]
fn test_treasury_update_delay() {
    let mut w = World::setup();
    let (instructor, treasury, admin, sec) = (w.instructor, w.treasury, w.admin, w.sec_admin);
    let student_1 = w.generate();
    let student_2 = w.generate();
    w.mint(student_1, 1_000_000_000);
    w.mint(student_2, 1_000_000_000);
    let price: i128 = 500_000_000;
    w.register_and_approve(instructor, "COURSE-TREASURY", price);
    let new_treasury = w.generate();
    w.c.update_treasury(w.now, CONTRACT, admin, sec, new_treasury).unwrap();
    w.enroll(student_1, "COURSE-TREASURY").unwrap();
    let platform_fee = price * 20 / 100;
    assert_eq!(w.balance(treasury), platform_fee);
    assert_eq!(w.balance(new_treasury), 0);
    w.advance(100);
    w.enroll(student_2, "COURSE-TREASURY").unwrap();
    assert_eq!(w.balance(treasury), platform_fee);
    assert_eq!(w.balance(new_treasury), platform_fee);
}

#[test]
fn test_update_treasury_same_address_rejected() {
    let mut w = World::setup();
    let (treasury, admin, sec) = (w.treasury, w.admin, w.sec_admin);
    assert_eq!(
        w.c.update_treasury(w.now, CONTRACT, admin, sec, treasury),
        Err(ContractError::TreasuryUnchanged)
    );
}

#[test]
fn test_register_course_id_too_long() {
    let mut w = World::setup();
    let instructor = w.instructor;
    assert_eq!(
        w.register(instructor, &"A".repeat(257), 50_000_000),
        Err(ContractError::CourseIdTooLong)
    );
}

#[test]
fn test_register_course_id_at_max_length_succeeds() {
    let mut w = World::setup();
    let instructor = w.instructor;
    let max_id = "A".repeat(256);
    w.register(instructor, &max_id, 50_000_000).unwrap();
    assert_eq!(w.status(&max_id), CourseStatus::Pending);
}

#[test]
fn test_issue_certificate_title_too_long() {
    let mut w = World::setup();
    let instructor = w.instructor;
    let student = w.generate();
    w.mint(student, 1_000_000_000);
    w.register_and_approve(instructor, "COURSE-TITLE-LEN", 100_000_000);
    w.enroll(student, "COURSE-TITLE-LEN").unwrap();
    w.complete(student, "COURSE-TITLE-LEN", Some("hash")).unwrap();
    assert_eq!(
        w.issue(student, "COURSE-TITLE-LEN", "CERT-TITLE-LEN", &"T".repeat(513)),
        Err(ContractError::TitleTooLong)
    );
}

#[test]
fn test_issue_certificate_id_too_long() {
    let mut w = World::setup();
    let instructor = w.instructor;
    let student = w.generate();
    w.mint(student, 1_000_000_000);
    w.register_and_approve(instructor, "COURSE-CERT-ID-LEN", 100_000_000);
    w.enroll(student, "COURSE-CERT-ID-LEN").unwrap();
    w.complete(student, "COURSE-CERT-ID-LEN", Some("hash")).unwrap();
    assert_eq!(
        w.issue(student, "COURSE-CERT-ID-LEN", &"C".repeat(257), "Valid Title"),
        Err(ContractError::CertificateIdTooLong)
    );
}

#[test]
fn test_archive_active_course_rejected() {
    let mut w = World::setup();
    let instructor = w.instructor;
    w.register_and_approve(instructor, "COURSE-ARCHIVE-ACTIVE", 100_000_000);
    assert_eq!(
        w.archive("COURSE-ARCHIVE-ACTIVE", None),
        Err(Fail::Contract(ContractError::CourseMustBePaused))
    );
}

#[test]
fn test_archive_pending_course_rejected() {
    let mut w = World::setup();
    let instructor = w.instructor;
    w.register(instructor, "COURSE-ARCHIVE-PENDING", 100_000_000).unwrap();
    assert_eq!(
        w.archive("COURSE-ARCHIVE-PENDING", None),
        Err(Fail::Contract(ContractError::CourseMustBePaused))
    );
}

#[test]
fn test_archive_paused_course_succeeds() {
    let mut w = World::setup();
    let (instructor, admin) = (w.instructor, w.admin);
    w.register_and_approve(instructor, "COURSE-ARCHIVE-PAUSED", 100_000_000);
    w.c.pause_course(w.now, admin, &s("COURSE-ARCHIVE-PAUSED")).unwrap();
    w.archive("COURSE-ARCHIVE-PAUSED", None).unwrap();
    assert_eq!(w.status("COURSE-ARCHIVE-PAUSED"), CourseStatus::Archived);
}

#[test]
fn test_init_cannot_be_called_twice() {
    let mut w = World::setup();
    let (admin, sec, treasury) = (w.admin, w.sec_admin, w.treasury);
    assert_eq!(
        w.c.init(w.now, CONTRACT, admin, sec, treasury, 20, 50, 1000, 0),
        Err(ContractError::AlreadyInitialized)
    );
}

#[test]
fn test_enroll_with_non_whitelisted_token_fails() {
    let mut w = World::setup();
    let instructor = w.instructor;
    let evil_token = w.generate();
    let student = w.generate();
    w.mint_token(evil_token, student, 100_000_000_000);
    w.register_full(instructor, "COURSE-EVIL-TOKEN", 500_000_000, evil_token, 0, None).unwrap();
    w.approve("COURSE-EVIL-TOKEN").unwrap();
    w.advance(1);
    assert_eq!(
        w.enroll(student, "COURSE-EVIL-TOKEN").err(),
        Some(Fail::Contract(ContractError::TokenNotApproved))
    );
}

#[test]
fn test_enroll_succeeds_after_token_removed_from_whitelist_is_re_added() {
    let mut w = World::setup();
    let (instructor, admin) = (w.instructor, w.admin);
    w.register_and_approve(instructor, "COURSE-WLIST", 200_000_000);
    w.c.remove_approved_token(w.now, admin, TOKEN).unwrap();
    w.c.add_approved_token(w.now, admin, TOKEN).unwrap();
    let student = w.generate();
    w.mint(student, 1_000_000_000);
    w.enroll(student, "COURSE-WLIST").unwrap();
    assert!(w.c.is_enrolled(student, &s("COURSE-WLIST")));
}

#[test]
fn test_certificate_id_collision_across_courses() {
    let mut w = World::setup();
    let instructor = w.instructor;
    w.register_and_approve(instructor, "COURSE-COLL-A", 300_000_000);
    w.register_and_approve(instructor, "COURSE-COLL-B", 300_000_000);
    let student_a = w.generate();
    w.mint(student_a, 1_000_000_000);
    w.enroll(student_a, "COURSE-COLL-A").unwrap();
    w.complete(student_a, "COURSE-COLL-A", Some("ev_a")).unwrap();
    w.issue(student_a, "COURSE-COLL-A", "CERT-SHARED-ID", "Course A").unwrap();
    let student_b = w.generate();
    w.mint(student_b, 1_000_000_000);
    w.enroll(student_b, "COURSE-COLL-B").unwrap();
    w.complete(student_b, "COURSE-COLL-B", Some("ev_b")).unwrap();
    assert_eq!(
        w.issue(student_b, "COURSE-COLL-B", "CERT-SHARED-ID", "Course B"),
        Err(ContractError::CertificateIdExists)
    );
}

// ------------------------------------------------------------------
// Admin handover
// ------------------------------------------------------------------

#[test]
fn test_two_step_admin_transfer_success() {
    let mut w = World::setup();
    let (admin, sec) = (w.admin, w.sec_admin);
    let new_admin = w.generate();
    let new_sec = w.generate();
    w.c.transfer_admin(w.now, admin, sec, new_admin, new_sec).unwrap();
    w.c.accept_admin(new_admin, new_sec).unwrap();
    w.c.update_default_fee(w.now, new_admin, 15).unwrap();
    assert_eq!(w.c.get_platform_fee(w.now, new_admin), Ok(15));
}

#[test]
fn test_accept_admin_without_proposal_fails() {
    let mut w = World::setup();
    let random = w.generate();
    let new_sec = w.generate();
    assert_eq!(w.c.accept_admin(random, new_sec), Err(ContractError::NoPendingAdmin));
}

#[test]
fn test_accept_admin_wrong_address_fails() {
    let mut w = World::setup();
    let (admin, sec) = (w.admin, w.sec_admin);
    let new_admin = w.generate();
    let wrong = w.generate();
    let new_sec = w.generate();
    w.c.transfer_admin(w.now, admin, sec, new_admin, new_sec).unwrap();
    let other_sec = w.generate();
    assert_eq!(w.c.accept_admin(wrong, other_sec), Err(ContractError::NotPendingAdmins));
}

#[test]
fn test_old_admin_loses_access_after_transfer_completes() {
    let mut w = World::setup();
    let (admin, sec) = (w.admin, w.sec_admin);
    let new_admin = w.generate();
    let new_sec = w.generate();
    w.c.transfer_admin(w.now, admin, sec, new_admin, new_sec).unwrap();
    w.c.accept_admin(new_admin, new_sec).unwrap();
    assert_eq!(w.c.update_default_fee(w.now, admin, 10), Err(ContractError::NotAdmin));
}

#[test]
fn test_old_admin_rejected_for_all_admin_only_functions_after_transfer() {
    let mut w = World::setup();
    let (instructor, admin, sec) = (w.instructor, w.admin, w.sec_admin);
    let student = w.generate();
    w.mint(student, 100_000_000_000);
    let id = "COURSE-OLD-ADMIN";
    w.register(instructor, id, 500_000_000).unwrap();
    w.advance(1);
    let new_admin = w.generate();
    let new_sec = w.generate();
    w.c.transfer_admin(w.now, admin, sec, new_admin, new_sec).unwrap();
    w.c.accept_admin(new_admin, new_sec).unwrap();
    assert!(w.c.approve_course(w.now, admin, &s(id)).is_err());
    w.c.approve_course(w.now, new_admin, &s(id)).unwrap();
    w.enroll(student, id).unwrap();
    assert!(w.c.mark_completed(w.now, admin, student, &s(id), Some(s("evidence"))).is_err());
    w.c.mark_completed(w.now, new_admin, student, &s(id), Some(s("evidence"))).unwrap();
    let issue = |c: &mut HamplardContract, now: u32, by: Addr| {
        c.issue_certificate(
            now,
            CONTRACT,
            by,
            student,
            &s(id),
            &s("CERT-OLD-ADMIN"),
            &s("Old Admin Course"),
            &student.to_string().into_bytes(),
            None,
            None,
        )
    };
    assert!(issue(&mut w.c, w.now, admin).is_err());
    issue(&mut w.c, w.now, new_admin).unwrap();
    assert!(w.c.revoke_certificate(w.now, admin, &s("CERT-OLD-ADMIN"), &s("TEST_REASON")).is_err());
    assert!(w.c.pause_platform(w.now, admin).is_err());
    assert!(w.c.withdraw_tokens(w.now, CONTRACT, admin, TOKEN, 0, admin).is_err());
    assert!(w.c.freeze_instructor(w.now, admin, instructor).is_err());
    let refund_student = w.generate();
    w.mint(refund_student, 100_000_000_000);
    w.register(instructor, "COURSE-OLD-ADMIN-REFUND", 500_000_000).unwrap();
    w.advance(1);
    w.c.approve_course(w.now, new_admin, &s("COURSE-OLD-ADMIN-REFUND")).unwrap();
    w.enroll(refund_student, "COURSE-OLD-ADMIN-REFUND").unwrap();
    w.c.request_refund(w.now, refund_student, &s("COURSE-OLD-ADMIN-REFUND")).unwrap();
    assert!(w.process_refund(admin, refund_student, "COURSE-OLD-ADMIN-REFUND", true).is_err());
    w.c.pause_course(w.now, new_admin, &s(id)).unwrap();
    assert!(w.c.archive_course(w.now, CONTRACT, admin, sec, &s(id), &None).is_err());
}

#[test]
fn test_admin_transferred_event_emitted_once_with_full_schema() {
    let mut w = World::setup();
    let (admin, sec) = (w.admin, w.sec_admin);
    let new_admin = w.generate();
    let new_sec = w.generate();
    w.c.transfer_admin(w.now, admin, sec, new_admin, new_sec).unwrap();
    let previous = w.c.admin;
    w.c.accept_admin(new_admin, new_sec).unwrap();
    // The handover event reports the previous and the new admin.
    assert_eq!(previous, Some(admin));
    assert_eq!(w.c.admin, Some(new_admin));
}

// ------------------------------------------------------------------
// Record lifetime
// ------------------------------------------------------------------

#[test]
fn test_get_enrollment_returns_none_after_ttl_expiry() {
    let mut w = World::setup();
    let instructor = w.instructor;
    let student = w.generate();
    w.mint(student, 1_000_000_000);
    let id = "COURSE-TTL-EXPIRY";
    w.register_and_approve(instructor, id, 100_000_000);
    w.enroll(student, id).unwrap();
    assert!(w.c.get_enrollment(student, student, &s(id)).unwrap().is_some());
    // The record expires from storage.
    let _ = w.c.enrollments.remove(&hamplard::table::Key::of_addr_text(student, &s(id)));
    assert!(w.c.get_enrollment(student, student, &s(id)).unwrap().is_none());
}

#[test]
fn test_enrollment_persists_after_long_ledger_advance() {
    let mut w = World::setup();
    let instructor = w.instructor;
    let student = w.generate();
    w.mint(student, 1_000_000_000);
    w.register_and_approve(instructor, "COURSE-TTL-001", 100_000_000);
    w.enroll(student, "COURSE-TTL-001").unwrap();
    w.advance(500_000);
    let e = w.c.get_enrollment(student, student, &s("COURSE-TTL-001")).unwrap().unwrap();
    assert_eq!(e.amount_paid, 100_000_000);
    assert!(w.c.is_enrolled(student, &s("COURSE-TTL-001")));
}

#[test]
fn test_enrollment_ttl_extended_on_write() {
    let mut w = World::setup();
    let instructor = w.instructor;
    let student = w.generate();
    w.mint(student, 1_000_000_000);
    w.register_and_approve(instructor, "COURSE-TTL-002", 200_000_000);
    w.enroll(student, "COURSE-TTL-002").unwrap();
    w.advance(5_000_000);
    w.complete(student, "COURSE-TTL-002", Some("proof")).unwrap();
    assert_eq!(w.c.has_completed(student, &s("COURSE-TTL-002")), Some(true));
}

// ------------------------------------------------------------------
// Batch enrollment
// ------------------------------------------------------------------

#[test]
fn test_batch_enroll_success() {
    let mut w = World::setup();
    let instructor = w.instructor;
    let student = w.generate();
    w.mint(student, 10_000_000_000);
    w.register_and_approve(instructor, "COURSE-BATCH-A", 100_000_000);
    w.register_and_approve(instructor, "COURSE-BATCH-B", 200_000_000);
    w.register_and_approve(instructor, "COURSE-BATCH-C", 300_000_000);
    w.batch_enroll(student, &["COURSE-BATCH-A", "COURSE-BATCH-B", "COURSE-BATCH-C"]).unwrap();
    assert!(w.c.is_enrolled(student, &s("COURSE-BATCH-A")));
    assert!(w.c.is_enrolled(student, &s("COURSE-BATCH-B")));
    assert!(w.c.is_enrolled(student, &s("COURSE-BATCH-C")));
}

#[test]
fn test_batch_enroll_fails_on_invalid_course() {
    let mut w = World::setup();
    let instructor = w.instructor;
    let student = w.generate();
    w.mint(student, 10_000_000_000);
    w.register_and_approve(instructor, "COURSE-BATCH-OK", 100_000_000);
    w.register(instructor, "COURSE-BATCH-BAD", 200_000_000).unwrap();
    assert_eq!(
        w.batch_enroll(student, &["COURSE-BATCH-OK", "COURSE-BATCH-BAD"]).err(),
        Some(Fail::Contract(ContractError::CourseNotAvailable))
    );
    assert!(!w.c.is_enrolled(student, &s("COURSE-BATCH-OK")));
}

#[test]
fn test_batch_enroll_rejects_duplicates() {
    let mut w = World::setup();
    let instructor = w.instructor;
    let student = w.generate();
    w.mint(student, 10_000_000_000);
    w.register_and_approve(instructor, "COURSE-BATCH-DUP", 100_000_000);
    assert_eq!(
        w.batch_enroll(student, &["COURSE-BATCH-DUP", "COURSE-BATCH-DUP"]).err(),
        Some(Fail::Contract(ContractError::DuplicateCourseInBatch))
    );
}

#[test]
fn test_batch_enroll_emits_event_for_each_enrollment() {
    let mut w = World::setup();
    let instructor = w.instructor;
    let student = w.generate();
    w.mint(student, 10_000_000_000);
    let (price_a, price_b): (i128, i128) = (100_000_000, 200_000_000);
    w.register_and_approve(instructor, "COURSE-EVENT-A", price_a);
    w.register_and_approve(instructor, "COURSE-EVENT-B", price_b);
    let rcs = w.batch_enroll(student, &["COURSE-EVENT-A", "COURSE-EVENT-B"]).unwrap();
    // One receipt, hence one enrollment event, per course.
    assert_eq!(rcs.len(), 2);
    assert!(rcs.iter().all(|rc| rc.student == student));
    assert_eq!(rcs[0].price, price_a);
    assert_eq!(rcs[1].price, price_b);
}

#[test]
fn test_mark_completed_unauthorized_includes_operation() {
    let mut w = World::setup();
    let instructor = w.instructor;
    let student = w.generate();
    w.mint(student, 100_000_000_000);
    w.register_and_approve(instructor, "COURSE-COMPLETE-UNAUTH", 50_000_000);
    w.enroll(student, "COURSE-COMPLETE-UNAUTH").unwrap();
    assert_eq!(
        w.c.mark_completed(w.now, instructor, student, &s("COURSE-COMPLETE-UNAUTH"), None),
        Err(ContractError::NotAdmin)
    );
}

#[test]
fn test_pause_platform_unauthorized_includes_operation() {
    let mut w = World::setup();
    let instructor = w.instructor;
    assert_eq!(w.c.pause_platform(w.now, instructor), Err(ContractError::NotAdmin));
}

#[test]
fn test_add_approved_token_unauthorized_includes_operation() {
    let mut w = World::setup();
    let instructor = w.instructor;
    let new_token = w.generate();
    assert_eq!(w.c.add_approved_token(w.now, instructor, new_token), Err(ContractError::NotAdmin));
}

#[test]
fn test_revoke_certificate_unauthorized_includes_operation() {
    let mut w = World::setup();
    let instructor = w.instructor;
    let student = w.generate();
    w.mint(student, 100_000_000_000);
    let id = "COURSE-REVOKE-UNAUTH";
    w.register_and_approve(instructor, id, 50_000_000);
    w.enroll(student, id).unwrap();
    w.complete(student, id, None).unwrap();
    w.issue(student, id, "CERT-REVOKE-UNAUTH-001", "Revoke Test Course").unwrap();
    assert_eq!(
        w.c.revoke_certificate(w.now, instructor, &s("CERT-REVOKE-UNAUTH-001"), &s("TEST_REASON")),
        Err(ContractError::NotAdmin)
    );
}

// ------------------------------------------------------------------
// Instructor earnings
// ------------------------------------------------------------------

#[test]
fn test_instructor_earnings_accumulate_and_withdraw() {
    let mut w = World::setup();
    let instructor = w.instructor;
    let student = w.generate();
    w.mint(student, 10_000_000_000);
    let price: i128 = 1_000_000_000;
    w.register_and_approve(instructor, "COURSE-EARN-001", price);
    w.enroll(student, "COURSE-EARN-001").unwrap();
    let instructor_share = price * 80 / 100;
    assert_eq!(w.earnings(instructor), instructor_share);
    assert_eq!(w.balance(instructor), 0);
    w.withdraw(instructor, 0).unwrap();
    assert_eq!(w.balance(instructor), instructor_share);
    assert_eq!(w.earnings(instructor), 0);
}

#[test]
fn test_multiple_enrollments_aggregate_earnings() {
    let mut w = World::setup();
    let instructor = w.instructor;
    let price: i128 = 500_000_000;
    w.register_and_approve(instructor, "COURSE-EARN-MULTI", price);
    for _ in 0..3 {
        let st = w.generate();
        w.mint(st, 1_000_000_000);
        w.enroll(st, "COURSE-EARN-MULTI").unwrap();
    }
    assert_eq!(w.earnings(instructor), price * 80 / 100 * 3);
}

#[test]
fn test_unauthorized_instructor_withdraw_fails() {
    let mut w = World::setup();
    let instructor = w.instructor;
    let student = w.generate();
    w.mint(student, 1_000_000_000);
    w.register_and_approve(instructor, "COURSE-EARN-AUTH", 500_000_000);
    w.enroll(student, "COURSE-EARN-AUTH").unwrap();
    let impostor = w.generate();
    assert_eq!(w.withdraw(impostor, 100), Err(Fail::Contract(ContractError::InsufficientEarnings)));
}

#[test]
fn test_double_withdrawal_prevented() {
    let mut w = World::setup();
    let instructor = w.instructor;
    let student = w.generate();
    w.mint(student, 1_000_000_000);
    w.register_and_approve(instructor, "COURSE-EARN-DBL", 500_000_000);
    w.enroll(student, "COURSE-EARN-DBL").unwrap();
    w.withdraw(instructor, 0).unwrap();
    let after_first = w.balance(instructor);
    w.withdraw(instructor, 0).unwrap();
    assert_eq!(w.balance(instructor), after_first);
}

#[test]
fn test_zero_balance_withdrawal_is_safe() {
    let mut w = World::setup();
    let instructor = w.instructor;
    assert_eq!(w.earnings(instructor), 0);
    w.withdraw(instructor, 0).unwrap();
    assert_eq!(w.earnings(instructor), 0);
}

// ------------------------------------------------------------------
// Registration limits
// ------------------------------------------------------------------

#[test]
fn test_registration_limit_enforced() {
    let mut w = World::setup();
    let (instructor, admin) = (w.instructor, w.admin);
    w.c.update_max_courses_limit(w.now, admin, 2).unwrap();
    w.register(instructor, "COURSE-LIMIT-001", 1_000_000).unwrap();
    w.register(instructor, "COURSE-LIMIT-002", 1_000_000).unwrap();
    assert_eq!(
        w.register(instructor, "COURSE-LIMIT-003", 1_000_000),
        Err(ContractError::MaxCoursesReached)
    );
}

#[test]
fn test_admin_can_raise_limit() {
    let mut w = World::setup();
    let (instructor, admin) = (w.instructor, w.admin);
    w.c.update_max_courses_limit(w.now, admin, 1).unwrap();
    w.register(instructor, "COURSE-RAISE-001", 1_000_000).unwrap();
    w.c.update_max_courses_limit(w.now, admin, 5).unwrap();
    w.register(instructor, "COURSE-RAISE-002", 1_000_000).unwrap();
    assert_eq!(w.c.get_instructor_course_count(instructor), 2);
}

#[test]
fn test_different_instructors_have_independent_limits() {
    let mut w = World::setup();
    let admin = w.admin;
    w.c.update_max_courses_limit(w.now, admin, 1).unwrap();
    let instructor_a = w.generate();
    let instructor_b = w.generate();
    w.register(instructor_a, "COURSE-IND-A1", 1_000_000).unwrap();
    w.register(instructor_b, "COURSE-IND-B1", 1_000_000).unwrap();
    assert_eq!(w.c.get_instructor_course_count(instructor_a), 1);
    assert_eq!(w.c.get_instructor_course_count(instructor_b), 1);
}

#[test]
fn test_get_max_courses_limit_returns_configured_value() {
    let mut w = World::setup();
    let admin = w.admin;
    assert_eq!(w.c.get_max_courses_limit(), 50);
    w.c.update_max_courses_limit(w.now, admin, 10).unwrap();
    assert_eq!(w.c.get_max_courses_limit(), 10);
}

#[test]
fn test_course_count_increments_correctly() {
    let mut w = World::setup();
    let instructor = w.instructor;
    assert_eq!(w.c.get_instructor_course_count(instructor), 0);
    w.register(instructor, "COURSE-COUNT-001", 1_000_000).unwrap();
    assert_eq!(w.c.get_instructor_course_count(instructor), 1);
    w.register(instructor, "COURSE-COUNT-002", 1_000_000).unwrap();
    assert_eq!(w.c.get_instructor_course_count(instructor), 2);
}

// ------------------------------------------------------------------
// Certificate verification
// ------------------------------------------------------------------

/// A student enrolled in, and completed, a fresh course.
fn completed_student(w: &mut World, id: &str) -> Addr {
    let instructor = w.instructor;
    let student = w.generate();
    w.mint(student, 1_000_000_000);
    w.register_and_approve(instructor, id, 100_000_000);
    w.enroll(student, id).unwrap();
    w.complete(student, id, Some("proof")).unwrap();
    student
}

#[test]
fn test_verify_certificate_returns_true_for_valid_cert() {
    let mut w = World::setup();
    let student = completed_student(&mut w, "COURSE-VERIFY-001");
    w.issue(student, "COURSE-VERIFY-001", "CERT-VERIFY-001", "Test Course").unwrap();
    assert!(w.c.verify_certificate(w.now, &s("CERT-VERIFY-001")));
}

#[test]
fn test_verify_certificate_returns_false_for_revoked_cert() {
    let mut w = World::setup();
    let admin = w.admin;
    let student = completed_student(&mut w, "COURSE-VERIFY-002");
    w.issue(student, "COURSE-VERIFY-002", "CERT-VERIFY-002", "Test Course").unwrap();
    assert!(w.c.verify_certificate(w.now, &s("CERT-VERIFY-002")));
    w.c.revoke_certificate(w.now, admin, &s("CERT-VERIFY-002"), &s("ACADEMIC_DISHONESTY")).unwrap();
    assert!(!w.c.verify_certificate(w.now, &s("CERT-VERIFY-002")));
}

#[test]
fn test_verify_certificate_returns_false_for_nonexistent_cert() {
    let w = World::setup();
    assert!(!w.c.verify_certificate(w.now, &s("CERT-DOES-NOT-EXIST")));
}

#[test]
fn test_verify_certificate_false_does_not_mutate_state() {
    let mut w = World::setup();
    let admin = w.admin;
    let student = completed_student(&mut w, "COURSE-VERIFY-003");
    w.issue(student, "COURSE-VERIFY-003", "CERT-VERIFY-003", "Test Course").unwrap();
    w.c.revoke_certificate(w.now, admin, &s("CERT-VERIFY-003"), &s("ISSUED_IN_ERROR")).unwrap();
    assert!(!w.c.verify_certificate(w.now, &s("CERT-VERIFY-003")));
    assert!(!w.c.verify_certificate(w.now, &s("CERT-VERIFY-003")));
    let cert = w.c.get_certificate(admin, &s("CERT-VERIFY-003")).unwrap();
    assert!(cert.revoked);
    assert_eq!(cert.revoked_by, Some(admin));
}

// ------------------------------------------------------------------
// Capacity
// ------------------------------------------------------------------

#[test]
fn test_enroll_at_capacity_succeeds() {
    let mut w = World::setup();
    let instructor = w.instructor;
    w.register_full(instructor, "COURSE-CAP-EXACT", 100_000_000, TOKEN, 0, Some(1)).unwrap();
    w.approve("COURSE-CAP-EXACT").unwrap();
    w.advance(1);
    let student = w.generate();
    w.mint(student, 1_000_000_000);
    w.enroll(student, "COURSE-CAP-EXACT").unwrap();
    assert_eq!(w.c.get_course(&s("COURSE-CAP-EXACT")).unwrap().total_enrollments, 1);
}

#[test]
fn test_enroll_beyond_capacity_rejected() {
    let mut w = World::setup();
    let instructor = w.instructor;
    w.register_full(instructor, "COURSE-CAP-FULL", 100_000_000, TOKEN, 0, Some(1)).unwrap();
    w.approve("COURSE-CAP-FULL").unwrap();
    w.advance(1);
    let student_a = w.generate();
    let student_b = w.generate();
    w.mint(student_a, 1_000_000_000);
    w.mint(student_b, 1_000_000_000);
    w.enroll(student_a, "COURSE-CAP-FULL").unwrap();
    assert_eq!(
        w.enroll(student_b, "COURSE-CAP-FULL").err(),
        Some(Fail::Contract(ContractError::CourseFull))
    );
}

#[test]
fn test_enroll_unlimited_capacity() {
    let mut w = World::setup();
    let instructor = w.instructor;
    w.register(instructor, "COURSE-CAP-NONE", 100_000_000).unwrap();
    w.approve("COURSE-CAP-NONE").unwrap();
    w.advance(1);
    for _ in 0..5 {
        let st = w.generate();
        w.mint(st, 1_000_000_000);
        w.enroll(st, "COURSE-CAP-NONE").unwrap();
    }
    assert_eq!(w.c.get_course(&s("COURSE-CAP-NONE")).unwrap().total_enrollments, 5);
}

#[test]
fn test_enroll_total_earned_overflow() {
    let mut w = World::setup();
    let instructor = w.instructor;
    let student = w.generate();
    w.mint(student, 100_000_000_000);
    w.register_and_approve(instructor, "COURSE-OVERFLOW-2", 100_000);
    let mut course = w.c.get_course(&s("COURSE-OVERFLOW-2")).unwrap();
    course.total_earned = i128::MAX;
    w.c.put_course(&s("COURSE-OVERFLOW-2"), course);
    assert_eq!(
        w.enroll(student, "COURSE-OVERFLOW-2").err(),
        Some(Fail::Contract(ContractError::Overflow))
    );
}

#[test]
fn test_course_approval_time_lock_premature_panics() {
    let mut w = World::setup();
    let (instructor, admin) = (w.instructor, w.admin);
    w.c.update_min_review_delay(w.now, admin, 10).unwrap();
    w.register(instructor, "COURSE-DELAYED-1", 100_000_000).unwrap();
    assert_eq!(w.approve("COURSE-DELAYED-1"), Err(ContractError::ReviewPeriod));
    assert_eq!(w.status("COURSE-DELAYED-1"), CourseStatus::Pending);
}

#[test]
fn test_course_approval_time_lock_success() {
    let mut w = World::setup();
    let (instructor, admin) = (w.instructor, w.admin);
    w.c.update_min_review_delay(w.now, admin, 10).unwrap();
    w.register(instructor, "COURSE-DELAYED-2", 100_000_000).unwrap();
    w.advance(10);
    w.approve("COURSE-DELAYED-2").unwrap();
    assert_eq!(w.status("COURSE-DELAYED-2"), CourseStatus::Active);
}

// ------------------------------------------------------------------
// Read access
// ------------------------------------------------------------------

#[test]
fn test_get_enrollment_authorized_access() {
    let mut w = World::setup();
    let (instructor, admin) = (w.instructor, w.admin);
    let student = w.generate();
    w.mint(student, 1_000_000_000);
    let id = "COURSE-AUTH-GET";
    w.register_and_approve(instructor, id, 100_000_000);
    w.enroll(student, id).unwrap();
    for caller in [student, instructor, admin] {
        let e = w.c.get_enrollment(caller, student, &s(id)).unwrap().unwrap();
        assert_eq!(e.amount_paid, 100_000_000);
    }
}

#[test]
fn test_get_enrollment_unauthorized_access() {
    let mut w = World::setup();
    let instructor = w.instructor;
    let student = w.generate();
    let random_user = w.generate();
    w.mint(student, 1_000_000_000);
    w.register_and_approve(instructor, "COURSE-AUTH-GET-UNAUTH", 100_000_000);
    w.enroll(student, "COURSE-AUTH-GET-UNAUTH").unwrap();
    assert!(matches!(
        w.c.get_enrollment(random_user, student, &s("COURSE-AUTH-GET-UNAUTH")),
        Err(ContractError::Unauthorized)
    ));
}

#[test]
fn test_archive_then_reregister_fails() {
    let mut w = World::setup();
    let (instructor, admin) = (w.instructor, w.admin);
    let id = "COURSE-ARCHIVE-REREG";
    w.register_and_approve(instructor, id, 100_000_000);
    w.c.pause_course(w.now, admin, &s(id)).unwrap();
    w.archive(id, None).unwrap();
    assert_eq!(w.status(id), CourseStatus::Archived);
    // Within the archive cooldown the id is still registered.
    assert_eq!(w.register(instructor, id, 100_000_000), Err(ContractError::CourseAlreadyRegistered));
}

#[test]
fn test_concurrent_completion() {
    let mut w = World::setup();
    let instructor = w.instructor;
    let student = w.generate();
    w.mint(student, 1_000_000_000);
    w.register_and_approve(instructor, "COURSE-CONCURRENCY", 100_000_000);
    w.enroll(student, "COURSE-CONCURRENCY").unwrap();
    w.complete(student, "COURSE-CONCURRENCY", Some("ev")).unwrap();
    assert_eq!(
        w.complete(student, "COURSE-CONCURRENCY", Some("ev2")),
        Err(ContractError::AlreadyCompleted)
    );
}

// ------------------------------------------------------------------
// Price range
// ------------------------------------------------------------------

#[test]
fn test_register_course_price_too_low_rejected() {
    let mut w = World::setup();
    let instructor = w.instructor;
    assert_eq!(w.register(instructor, "COURSE-PRICE-LOW", 50), Err(ContractError::PriceOutOfRange));
}

#[test]
fn test_register_course_price_too_high_rejected() {
    let mut w = World::setup();
    let instructor = w.instructor;
    assert_eq!(
        w.register(instructor, "COURSE-PRICE-HIGH", 2_000_000_000_000),
        Err(ContractError::PriceOutOfRange)
    );
}

#[test]
fn test_register_course_price_zero_still_allowed() {
    let mut w = World::setup();
    let instructor = w.instructor;
    w.register(instructor, "COURSE-PRICE-FREE", 0).unwrap();
    assert_eq!(w.c.get_course(&s("COURSE-PRICE-FREE")).unwrap().price, 0);
}

#[test]
fn test_register_course_price_at_range_boundaries_succeeds() {
    let mut w = World::setup();
    let instructor = w.instructor;
    w.register(instructor, "COURSE-PRICE-MIN", 100_000).unwrap();
    assert_eq!(w.c.get_course(&s("COURSE-PRICE-MIN")).unwrap().price, 100_000);
    w.register(instructor, "COURSE-PRICE-MAX", 1_000_000_000_000).unwrap();
    assert_eq!(w.c.get_course(&s("COURSE-PRICE-MAX")).unwrap().price, 1_000_000_000_000);
}

// ------------------------------------------------------------------
// Ledger bookkeeping on courses
// ------------------------------------------------------------------

#[test]
fn test_course_created_at_ledger_is_accurate() {
    let mut w = World::setup();
    let instructor = w.instructor;
    w.now = 12345;
    w.register(instructor, "COURSE-LEDGER", 100_000_000).unwrap();
    assert_eq!(w.c.get_course(&s("COURSE-LEDGER")).unwrap().created_at_ledger, 12345);
}

#[test]
fn test_course_last_updated_ledger_tracks_modifications() {
    let mut w = World::setup();
    let instructor = w.instructor;
    w.now = 12000;
    w.register(instructor, "COURSE-LAST-UPDATED", 100_000_000).unwrap();
    assert_eq!(w.c.get_course(&s("COURSE-LAST-UPDATED")).unwrap().last_updated_ledger, 12000);
    w.now = 12010;
    w.approve("COURSE-LAST-UPDATED").unwrap();
    assert_eq!(w.c.get_course(&s("COURSE-LAST-UPDATED")).unwrap().last_updated_ledger, 12010);
}

#[test]
fn test_course_certificate_id_collision_verification() {
    let mut w = World::setup();
    let (instructor, admin) = (w.instructor, w.admin);
    let student = w.generate();
    w.mint(student, 1_000_000_000);
    let matching = "MATCHING-ID-123";
    w.register(instructor, matching, 100_000_000).unwrap();
    w.approve(matching).unwrap();
    w.advance(1);
    w.enroll(student, matching).unwrap();
    w.complete(student, matching, Some("proof")).unwrap();
    w.issue(student, matching, matching, "Test Course").unwrap();
    let course = w.c.get_course(&s(matching)).unwrap();
    assert_eq!(course.id, s(matching));
    assert_eq!(course.instructor, instructor);
    let cert = w.c.get_certificate(admin, &s(matching)).unwrap();
    assert_eq!(cert.id, s(matching));
    assert_eq!(cert.student, student);
    assert!(w.c.verify_certificate(w.now, &s(matching)));
}

#[test]
fn test_transfer_admin_rejects_identical_addresses() {
    let mut w = World::setup();
    let (admin, sec) = (w.admin, w.sec_admin);
    assert_eq!(w.c.transfer_admin(w.now, admin, sec, admin, sec), Err(ContractError::AdminsIdentical));
}

#[test]
fn test_transfer_admin_rejects_same_new_admin_and_secondary() {
    let mut w = World::setup();
    let (admin, sec) = (w.admin, w.sec_admin);
    let new_admin = w.generate();
    assert_eq!(
        w.c.transfer_admin(w.now, admin, sec, new_admin, new_admin),
        Err(ContractError::AdminsNotDistinct)
    );
}

#[test]
fn test_certificate_expiry_behavior() {
    let mut w = World::setup();
    let (instructor, admin) = (w.instructor, w.admin);
    let student = w.generate();
    w.mint(student, 1_000_000_000);
    let id = "COURSE-EXPIRY";
    w.register_and_approve(instructor, id, 100_000_000);
    w.enroll(student, id).unwrap();
    w.complete(student, id, None).unwrap();
    w.c.issue_certificate(
        w.now,
        CONTRACT,
        admin,
        student,
        &s(id),
        &s("CERT-EXPIRY-123"),
        &s("Expiry Course"),
        &student.to_string().into_bytes(),
        Some(1000),
        None,
    )
    .unwrap();
    assert!(w.c.verify_certificate(w.now, &s("CERT-EXPIRY-123")));
    assert!(w.c.verify_certificate(999, &s("CERT-EXPIRY-123")));
    assert!(!w.c.verify_certificate(1000, &s("CERT-EXPIRY-123")));
}

// ------------------------------------------------------------------
// Frozen instructors and blocked students
// ------------------------------------------------------------------

#[test]
fn test_freeze_instructor_lifecycle() {
    let mut w = World::setup();
    let (instructor, admin) = (w.instructor, w.admin);
    assert!(!w.c.is_instructor_frozen(instructor));
    w.c.freeze_instructor(w.now, admin, instructor).unwrap();
    assert!(w.c.is_instructor_frozen(instructor));
    w.c.unfreeze_instructor(w.now, admin, instructor).unwrap();
    assert!(!w.c.is_instructor_frozen(instructor));
}

#[test]
fn test_student_blocklist_lifecycle() {
    let mut w = World::setup();
    let admin = w.admin;
    let student = w.generate();
    assert!(!w.c.is_student_blocked(student));
    w.c.block_student(w.now, admin, student).unwrap();
    assert!(w.c.is_student_blocked(student));
    w.c.unblock_student(w.now, admin, student).unwrap();
    assert!(!w.c.is_student_blocked(student));
}

#[test]
fn test_blocked_student_cannot_enroll() {
    let mut w = World::setup();
    let (instructor, admin) = (w.instructor, w.admin);
    let student = w.generate();
    w.register_and_approve(instructor, "BLOCKED-STUDENT-COURSE", 100_000_000);
    w.c.block_student(w.now, admin, student).unwrap();
    assert_eq!(
        w.enroll(student, "BLOCKED-STUDENT-COURSE").err(),
        Some(Fail::Contract(ContractError::StudentBlocked))
    );
}

#[test]
fn test_frozen_instructor_cannot_register_course() {
    let mut w = World::setup();
    let (instructor, admin) = (w.instructor, w.admin);
    w.c.freeze_instructor(w.now, admin, instructor).unwrap();
    assert_eq!(w.register(instructor, "FROZEN-COURSE", 100_000_000), Err(ContractError::InstructorFrozen));
}

// ------------------------------------------------------------------
// Refunds
// ------------------------------------------------------------------

#[test]
fn test_refund_lifecycle() {
    let mut w = World::setup();
    let (instructor, admin) = (w.instructor, w.admin);
    let student = w.generate();
    w.mint(student, 100_000_000_000);
    let id = "COURSE-REFUND";
    w.register_and_approve(instructor, id, 1_000_000_000);
    w.c.update_refund_window(w.now, admin, 10).unwrap();
    assert_eq!(w.c.get_refund_window(), 10);
    w.enroll(student, id).unwrap();
    assert!(w.c.is_enrolled(student, &s(id)));
    w.c.request_refund(w.now, student, &s(id)).unwrap();
    assert_eq!(w.c.get_refund_request(student, &s(id)).unwrap().status, hamplard::model::RefundStatus::Pending);
    let initial = w.balance(student);
    w.process_refund(admin, student, id, true).unwrap();
    assert_eq!(w.balance(student) - initial, 1_000_000_000);
    assert!(!w.c.is_enrolled(student, &s(id)));
    assert_eq!(w.c.get_refund_request(student, &s(id)).unwrap().status, hamplard::model::RefundStatus::Approved);
}

#[test]
fn test_refund_request_outside_window_fails() {
    let mut w = World::setup();
    let (instructor, admin) = (w.instructor, w.admin);
    let student = w.generate();
    w.mint(student, 100_000_000_000);
    w.register_and_approve(instructor, "COURSE-REFUND-EXP", 1_000_000_000);
    w.c.update_refund_window(w.now, admin, 5).unwrap();
    w.enroll(student, "COURSE-REFUND-EXP").unwrap();
    w.advance(6);
    assert_eq!(
        w.c.request_refund(w.now, student, &s("COURSE-REFUND-EXP")),
        Err(ContractError::RefundWindowExpired)
    );
}

#[test]
fn test_refund_rejection() {
    let mut w = World::setup();
    let (instructor, admin) = (w.instructor, w.admin);
    let student = w.generate();
    w.mint(student, 100_000_000_000);
    w.register_and_approve(instructor, "COURSE-REJECT", 1_000_000_000);
    w.enroll(student, "COURSE-REJECT").unwrap();
    w.c.request_refund(w.now, student, &s("COURSE-REJECT")).unwrap();
    w.process_refund(admin, student, "COURSE-REJECT", false).unwrap();
    assert_eq!(
        w.c.get_refund_request(student, &s("COURSE-REJECT")).unwrap().status,
        hamplard::model::RefundStatus::Rejected
    );
    assert!(w.c.is_enrolled(student, &s("COURSE-REJECT")));
}

#[test]
fn test_frozen_instructor_enrollment_blocked() {
    let mut w = World::setup();
    let (instructor, admin) = (w.instructor, w.admin);
    let student = w.generate();
    w.mint(student, 1_000_000_000);
    w.register_and_approve(instructor, "PRE-FREEZE-COURSE", 100_000_000);
    w.c.freeze_instructor(w.now, admin, instructor).unwrap();
    assert_eq!(
        w.enroll(student, "PRE-FREEZE-COURSE").err(),
        Some(Fail::Contract(ContractError::InstructorFrozen))
    );
}

#[test]
fn test_has_completed_distinguishes_absent_enrollment_from_incomplete() {
    let mut w = World::setup();
    let instructor = w.instructor;
    let student = w.generate();
    w.mint(student, 100_000_000_000);
    let id = "COURSE-COMPLETION-STATUS";
    w.register_and_approve(instructor, id, 500_000_000);
    assert_eq!(w.c.has_completed(student, &s(id)), None);
    w.enroll(student, id).unwrap();
    assert_eq!(w.c.has_completed(student, &s(id)), Some(false));
    w.complete(student, id, Some("evidence_hash")).unwrap();
    assert_eq!(w.c.has_completed(student, &s(id)), Some(true));
}

// ------------------------------------------------------------------
// Re-enrollment
// ------------------------------------------------------------------

#[test]
fn test_re_enroll_after_completion_succeeds() {
    let mut w = World::setup();
    let (instructor, treasury) = (w.instructor, w.treasury);
    let student = w.generate();
    w.mint(student, 10_000_000_000);
    let price: i128 = 500_000_000;
    let id = "COURSE-REENROLL-001";
    w.register_and_approve(instructor, id, price);
    w.enroll(student, id).unwrap();
    w.complete(student, id, Some("evidence_1")).unwrap();
    assert_eq!(w.c.has_completed(student, &s(id)), Some(true));
    let treasury_before = w.balance(treasury);
    w.re_enroll(student, id).unwrap();
    let e = w.c.get_enrollment(student, student, &s(id)).unwrap().unwrap();
    assert!(!e.completed);
    assert!(!e.certificate_issued);
    assert!(e.certificate_id.is_none());
    assert!(e.evidence_hash.is_none());
    assert_eq!(e.amount_paid, price);
    assert_eq!(w.balance(treasury) - treasury_before, price * 20 / 100);
    assert_eq!(w.c.get_course(&s(id)).unwrap().total_enrollments, 2);
}

#[test]
fn test_re_enroll_archives_original_completion_and_certificate() {
    let mut w = World::setup();
    let instructor = w.instructor;
    let student = w.generate();
    w.mint(student, 10_000_000_000);
    let id = "COURSE-REENROLL-002";
    w.register_and_approve(instructor, id, 500_000_000);
    w.enroll(student, id).unwrap();
    w.complete(student, id, Some("evidence_original")).unwrap();
    w.issue(student, id, "CERT-REENROLL-002", "Re-enroll Course").unwrap();
    w.re_enroll(student, id).unwrap();
    assert!(w.c.verify_certificate(w.now, &s("CERT-REENROLL-002")));
    let cert = w.c.get_certificate(student, &s("CERT-REENROLL-002")).unwrap();
    assert_eq!(cert.student, student);
    assert!(!cert.revoked);
    let history = w.c.get_enrollment_history(student, student, &s(id)).unwrap();
    assert_eq!(history.len(), 1);
    assert!(history[0].completed);
    assert_eq!(history[0].certificate_id, Some(s("CERT-REENROLL-002")));
    assert_eq!(history[0].evidence_hash, Some(s("evidence_original")));
}

#[test]
fn test_re_enroll_without_prior_enrollment_fails() {
    let mut w = World::setup();
    let instructor = w.instructor;
    let student = w.generate();
    w.register_and_approve(instructor, "COURSE-REENROLL-003", 500_000_000);
    assert_eq!(
        w.re_enroll(student, "COURSE-REENROLL-003").err(),
        Some(Fail::Contract(ContractError::NoPriorEnrollment))
    );
}

#[test]
fn test_re_enroll_before_completion_fails() {
    let mut w = World::setup();
    let instructor = w.instructor;
    let student = w.generate();
    w.mint(student, 10_000_000_000);
    w.register_and_approve(instructor, "COURSE-REENROLL-004", 500_000_000);
    w.enroll(student, "COURSE-REENROLL-004").unwrap();
    assert_eq!(
        w.re_enroll(student, "COURSE-REENROLL-004").err(),
        Some(Fail::Contract(ContractError::EnrollmentNotCompleted))
    );
}

#[test]
fn test_re_enroll_multiple_times_accumulates_history() {
    let mut w = World::setup();
    let instructor = w.instructor;
    let student = w.generate();
    w.mint(student, 10_000_000_000);
    let id = "COURSE-REENROLL-005";
    w.register_and_approve(instructor, id, 200_000_000);
    w.enroll(student, id).unwrap();
    w.complete(student, id, Some("evidence-1")).unwrap();
    assert_eq!(w.c.get_enrollment_history(student, student, &s(id)).unwrap().len(), 0);
    w.re_enroll(student, id).unwrap();
    w.complete(student, id, Some("evidence-2")).unwrap();
    assert_eq!(w.c.get_enrollment_history(student, student, &s(id)).unwrap().len(), 1);
    w.re_enroll(student, id).unwrap();
    let history = w.c.get_enrollment_history(student, student, &s(id)).unwrap();
    assert_eq!(history.len(), 2);
    assert!(history[0].completed);
    assert!(history[1].completed);
}

#[test]
fn test_get_enrollment_history_unauthorized_access() {
    let mut w = World::setup();
    let instructor = w.instructor;
    let student = w.generate();
    let random_user = w.generate();
    w.mint(student, 10_000_000_000);
    let id = "COURSE-REENROLL-006";
    w.register_and_approve(instructor, id, 200_000_000);
    w.enroll(student, id).unwrap();
    w.complete(student, id, Some("evidence")).unwrap();
    w.re_enroll(student, id).unwrap();
    assert!(matches!(
        w.c.get_enrollment_history(random_user, student, &s(id)),
        Err(ContractError::Unauthorized)
    ));
}

#[test]
fn test_get_certificate_authorized_roles() {
    let mut w = World::setup();
    let (instructor, admin) = (w.instructor, w.admin);
    let student = w.generate();
    w.mint(student, 100_000_000_000);
    let id = "COURSE-GET-CERT";
    w.register_and_approve(instructor, id, 500_000_000);
    w.enroll(student, id).unwrap();
    w.complete(student, id, Some("evidence_hash")).unwrap();
    w.issue(student, id, "CERT-123", "Test Course").unwrap();
    for caller in [student, instructor, admin] {
        assert_eq!(w.c.get_certificate(caller, &s("CERT-123")).unwrap().student, student);
    }
}

#[test]
fn test_get_certificate_unauthorized_third_party_fails() {
    let mut w = World::setup();
    let instructor = w.instructor;
    let student = w.generate();
    w.mint(student, 100_000_000_000);
    let id = "COURSE-GET-CERT";
    w.register_and_approve(instructor, id, 500_000_000);
    w.enroll(student, id).unwrap();
    w.complete(student, id, Some("evidence_hash")).unwrap();
    w.issue(student, id, "CERT-123", "Test Course").unwrap();
    let third_party = w.generate();
    assert!(matches!(w.c.get_certificate(third_party, &s("CERT-123")), Err(ContractError::Unauthorized)));
}

#[test]
fn test_certificate_student_b_without_enrollment_panics() {
    let mut w = World::setup();
    let instructor = w.instructor;
    let student_a = w.generate();
    let student_b = w.generate();
    w.mint(student_a, 100_000_000_000);
    w.mint(student_b, 100_000_000_000);
    let id = "COURSE-SECURE-B";
    w.register_and_approve(instructor, id, 500_000_000);
    w.enroll(student_a, id).unwrap();
    w.complete(student_a, id, Some("evidence")).unwrap();
    assert_eq!(
        w.issue(student_b, id, "CERT-SECURE-B", "Secure Course"),
        Err(ContractError::EnrollmentNotFound)
    );
}

#[test]
fn test_certificate_student_matches_enrollment() {
    let mut w = World::setup();
    let (instructor, admin) = (w.instructor, w.admin);
    let student_a = w.generate();
    let student_b = w.generate();
    w.mint(student_a, 100_000_000_000);
    w.mint(student_b, 100_000_000_000);
    let id = "COURSE-SECURE";
    w.register_and_approve(instructor, id, 500_000_000);
    w.enroll(student_a, id).unwrap();
    w.complete(student_a, id, Some("evidence")).unwrap();
    w.issue(student_a, id, "CERT-SECURE", "Secure Course").unwrap();
    assert_eq!(w.c.get_certificate(admin, &s("CERT-SECURE")).unwrap().student, student_a);
}

// ------------------------------------------------------------------
// Instructor course lists
// ------------------------------------------------------------------

#[test]
fn test_get_courses_by_instructor_accurate_after_registration_pause_and_archival() {
    let mut w = World::setup();
    let instructor = w.instructor;
    let other = w.generate();
    w.register(instructor, "COURSE-INSTR-LIST-1", 500_000_000).unwrap();
    w.register(instructor, "COURSE-INSTR-LIST-2", 500_000_000).unwrap();
    w.register(other, "COURSE-INSTR-LIST-OTHER", 500_000_000).unwrap();
    let list = w.c.get_courses_by_instructor(instructor);
    assert_eq!(list, vec![s("COURSE-INSTR-LIST-1"), s("COURSE-INSTR-LIST-2")]);
    assert_eq!(w.c.get_courses_by_instructor(other).len(), 1);
    w.advance(1);
    w.approve("COURSE-INSTR-LIST-1").unwrap();
    w.c.pause_course(w.now, instructor, &s("COURSE-INSTR-LIST-1")).unwrap();
    let after_pause = w.c.get_courses_by_instructor(instructor);
    assert_eq!(after_pause.len(), 2);
    assert_eq!(after_pause[0], s("COURSE-INSTR-LIST-1"));
    w.archive("COURSE-INSTR-LIST-1", None).unwrap();
    let after_archive = w.c.get_courses_by_instructor(instructor);
    assert_eq!(after_archive.len(), 2);
    assert_eq!(after_archive[0], s("COURSE-INSTR-LIST-1"));
    assert_eq!(w.status("COURSE-INSTR-LIST-1"), CourseStatus::Archived);
}

#[test]
fn test_get_courses_by_instructor_empty_for_unknown_instructor() {
    let mut w = World::setup();
    let unknown = w.generate();
    assert_eq!(w.c.get_courses_by_instructor(unknown).len(), 0);
}

// ------------------------------------------------------------------
// Minimum enrollment duration
// ------------------------------------------------------------------

#[test]
fn test_mark_completed_before_min_duration_fails() {
    let mut w = World::setup();
    let (instructor, admin) = (w.instructor, w.admin);
    w.c.update_min_completion_ledgers(w.now, admin, 50).unwrap();
    let student = w.generate();
    w.mint(student, 10_000_000_000);
    w.register_and_approve(instructor, "COURSE-MIN-DURATION-1", 500_000_000);
    w.enroll(student, "COURSE-MIN-DURATION-1").unwrap();
    assert_eq!(
        w.complete(student, "COURSE-MIN-DURATION-1", Some("evidence")),
        Err(ContractError::MinDurationNotElapsed)
    );
}

#[test]
fn test_mark_completed_after_min_duration_succeeds() {
    let mut w = World::setup();
    let (instructor, admin) = (w.instructor, w.admin);
    w.c.update_min_completion_ledgers(w.now, admin, 50).unwrap();
    let student = w.generate();
    w.mint(student, 10_000_000_000);
    w.register_and_approve(instructor, "COURSE-MIN-DURATION-2", 500_000_000);
    w.enroll(student, "COURSE-MIN-DURATION-2").unwrap();
    w.advance(50);
    w.complete(student, "COURSE-MIN-DURATION-2", Some("evidence")).unwrap();
    assert_eq!(w.c.has_completed(student, &s("COURSE-MIN-DURATION-2")), Some(true));
}

#[test]
fn test_mark_completed_default_zero_delay_allows_immediate_completion() {
    let mut w = World::setup();
    let instructor = w.instructor;
    let student = w.generate();
    w.mint(student, 10_000_000_000);
    w.register_and_approve(instructor, "COURSE-MIN-DURATION-3", 500_000_000);
    w.enroll(student, "COURSE-MIN-DURATION-3").unwrap();
    w.complete(student, "COURSE-MIN-DURATION-3", Some("evidence")).unwrap();
    assert_eq!(w.c.has_completed(student, &s("COURSE-MIN-DURATION-3")), Some(true));
}

#[test]
fn test_enroll_rejected_for_just_paused_course() {
    let mut w = World::setup();
    let (instructor, admin) = (w.instructor, w.admin);
    let student = w.generate();
    w.mint(student, 10_000_000_000);
    w.register_and_approve(instructor, "COURSE-TOCTOU-1", 500_000_000);
    w.c.pause_course(w.now, admin, &s("COURSE-TOCTOU-1")).unwrap();
    assert_eq!(
        w.enroll(student, "COURSE-TOCTOU-1").err(),
        Some(Fail::Contract(ContractError::CourseNotAvailable))
    );
}

#[test]
fn test_issue_certificate_empty_id_rejected() {
    let mut w = World::setup();
    let student = completed_student(&mut w, "COURSE-EMPTY-CERT");
    assert_eq!(w.issue(student, "COURSE-EMPTY-CERT", "", "Test Course"), Err(ContractError::CertificateIdEmpty));
}

#[test]
fn test_revoke_certificate_double_revocation_rejected() {
    let mut w = World::setup();
    let admin = w.admin;
    let student = completed_student(&mut w, "COURSE-REVOKE-DBL");
    w.issue(student, "COURSE-REVOKE-DBL", "CERT-DBL-REVOKE", "Test Course").unwrap();
    w.c.revoke_certificate(w.now, admin, &s("CERT-DBL-REVOKE"), &s("ISSUED_IN_ERROR")).unwrap();
    assert_eq!(
        w.c.revoke_certificate(w.now, admin, &s("CERT-DBL-REVOKE"), &s("DOUBLE_REVOKE_ATTEMPT")),
        Err(ContractError::AlreadyRevoked)
    );
}

#[test]
fn test_revoke_certificate_metadata_unchanged_after_rejected_double_revoke() {
    let mut w = World::setup();
    let admin = w.admin;
    let student = completed_student(&mut w, "COURSE-IMMUTABLE-001");
    w.issue(student, "COURSE-IMMUTABLE-001", "CERT-IMMUTABLE-001", "Test Course").unwrap();
    w.c.revoke_certificate(w.now, admin, &s("CERT-IMMUTABLE-001"), &s("ISSUED_IN_ERROR")).unwrap();
    let first = w.c.get_certificate(admin, &s("CERT-IMMUTABLE-001")).unwrap();
    assert!(first.revoked);
    let result = w.c.revoke_certificate(w.now, admin, &s("CERT-IMMUTABLE-001"), &s("DOUBLE_REVOKE_ATTEMPT"));
    assert!(result.is_err());
    let second = w.c.get_certificate(admin, &s("CERT-IMMUTABLE-001")).unwrap();
    assert!(second.revoked);
    assert_eq!(second.revoked_by, first.revoked_by);
    assert_eq!(second.revocation_ledger, first.revocation_ledger);
    assert_eq!(second.revocation_reason, Some(s("ISSUED_IN_ERROR")));
}

#[test]
fn test_revoke_certificate_id_cannot_be_reused_to_unrevoke() {
    let mut w = World::setup();
    let (instructor, admin) = (w.instructor, w.admin);
    let student_a = w.generate();
    let student_b = w.generate();
    w.mint(student_a, 100_000_000_000);
    w.mint(student_b, 100_000_000_000);
    w.register_and_approve(instructor, "COURSE-REUSE-A", 500_000_000);
    w.register_and_approve(instructor, "COURSE-REUSE-B", 500_000_000);
    w.enroll(student_a, "COURSE-REUSE-A").unwrap();
    w.complete(student_a, "COURSE-REUSE-A", Some("evidence")).unwrap();
    w.issue(student_a, "COURSE-REUSE-A", "CERT-REUSE-SHARED", "Course A").unwrap();
    w.c.revoke_certificate(w.now, admin, &s("CERT-REUSE-SHARED"), &s("ISSUED_IN_ERROR")).unwrap();
    w.enroll(student_b, "COURSE-REUSE-B").unwrap();
    w.complete(student_b, "COURSE-REUSE-B", Some("evidence")).unwrap();
    assert_eq!(
        w.issue(student_b, "COURSE-REUSE-B", "CERT-REUSE-SHARED", "Course B"),
        Err(ContractError::CertificateIdExists)
    );
}

#[test]
fn test_transfer_admin_same_address_rejected() {
    let mut w = World::setup();
    let (admin, sec) = (w.admin, w.sec_admin);
    assert_eq!(w.c.transfer_admin(w.now, admin, sec, admin, sec), Err(ContractError::AdminsIdentical));
}

// ------------------------------------------------------------------
// Enrollment expiry
// ------------------------------------------------------------------

#[test]
fn test_mark_completed_panics_when_enrollment_expired() {
    let mut w = World::setup();
    let instructor = w.instructor;
    let student = w.generate();
    w.mint(student, 100_000_000_000);
    let id = "COURSE-EXPIRY-001";
    w.register_and_approve(instructor, id, 500_000_000);
    w.c.set_enrollment_expiry(w.now, instructor, &s(id), Some(100)).unwrap();
    w.enroll(student, id).unwrap();
    w.advance(200);
    assert_eq!(w.complete(student, id, Some("late_evidence")), Err(ContractError::EnrollmentExpired));
}

#[test]
fn test_has_completed_returns_false_when_enrollment_expired() {
    let mut w = World::setup();
    let instructor = w.instructor;
    let student = w.generate();
    w.mint(student, 100_000_000_000);
    let id = "COURSE-EXPIRY-002";
    w.register_and_approve(instructor, id, 500_000_000);
    w.c.set_enrollment_expiry(w.now, instructor, &s(id), Some(50)).unwrap();
    w.enroll(student, id).unwrap();
    assert_ne!(w.c.has_completed(student, &s(id)), Some(true));
    w.advance(100);
    assert_ne!(w.c.has_completed(student, &s(id)), Some(true));
}

#[test]
fn test_has_completed_returns_true_when_completed_before_expiry() {
    let mut w = World::setup();
    let instructor = w.instructor;
    let student = w.generate();
    w.mint(student, 100_000_000_000);
    let id = "COURSE-EXPIRY-003";
    w.register_and_approve(instructor, id, 500_000_000);
    w.c.set_enrollment_expiry(w.now, instructor, &s(id), Some(1000)).unwrap();
    w.enroll(student, id).unwrap();
    w.complete(student, id, Some("evidence")).unwrap();
    w.advance(2000);
    assert_eq!(w.c.has_completed(student, &s(id)), Some(true));
}

#[test]
fn test_enrollment_expiry_none_allows_completion_at_any_time() {
    let mut w = World::setup();
    let instructor = w.instructor;
    let student = w.generate();
    w.mint(student, 100_000_000_000);
    let id = "COURSE-NO-EXPIRY";
    w.register_and_approve(instructor, id, 500_000_000);
    w.enroll(student, id).unwrap();
    w.advance(1_000_000);
    w.complete(student, id, Some("late_evidence")).unwrap();
    assert_eq!(w.c.has_completed(student, &s(id)), Some(true));
}

// ------------------------------------------------------------------
// Who issued a certificate
// ------------------------------------------------------------------

#[test]
fn test_certificate_issued_by_matches_contract_address() {
    let mut w = World::setup();
    let admin = w.admin;
    let student = completed_student(&mut w, "COURSE-ISSUED-BY-001");
    w.issue(student, "COURSE-ISSUED-BY-001", "CERT-ISSUED-BY-001", "Issued-By Course").unwrap();
    assert_eq!(w.c.get_certificate(admin, &s("CERT-ISSUED-BY-001")).unwrap().issued_by, CONTRACT);
}

#[test]
fn test_certificate_issued_by_is_not_admin_or_instructor() {
    let mut w = World::setup();
    let (admin, instructor) = (w.admin, w.instructor);
    let student = completed_student(&mut w, "COURSE-ISSUED-BY-002");
    w.issue(student, "COURSE-ISSUED-BY-002", "CERT-ISSUED-BY-002", "Issued-By Course 2").unwrap();
    let cert = w.c.get_certificate(admin, &s("CERT-ISSUED-BY-002")).unwrap();
    assert_ne!(cert.issued_by, admin, "issued_by must not be the admin address");
    assert_ne!(cert.issued_by, instructor, "issued_by must not be the instructor address");
    assert_ne!(cert.issued_by, student, "issued_by must not be the student address");
    assert_eq!(cert.issued_by, CONTRACT);
}

#[test]
fn test_certificate_issued_by_persists_after_revocation() {
    let mut w = World::setup();
    let admin = w.admin;
    let student = completed_student(&mut w, "COURSE-ISSUED-BY-003");
    w.issue(student, "COURSE-ISSUED-BY-003", "CERT-ISSUED-BY-003", "Issued-By Course 3").unwrap();
    w.c.revoke_certificate(w.now, admin, &s("CERT-ISSUED-BY-003"), &s("TEST")).unwrap();
    let cert = w.c.get_certificate(admin, &s("CERT-ISSUED-BY-003")).unwrap();
    assert!(cert.revoked);
    assert_eq!(cert.issued_by, CONTRACT);
}

#[test]
fn test_multiple_certificates_share_same_issued_by() {
    let mut w = World::setup();
    let (instructor, admin) = (w.instructor, w.admin);
    let student_a = w.generate();
    let student_b = w.generate();
    w.mint(student_a, 1_000_000_000);
    w.mint(student_b, 1_000_000_000);
    w.register_and_approve(instructor, "COURSE-MULTI-ISSUED-A", 100_000_000);
    w.register_and_approve(instructor, "COURSE-MULTI-ISSUED-B", 200_000_000);
    w.enroll(student_a, "COURSE-MULTI-ISSUED-A").unwrap();
    w.complete(student_a, "COURSE-MULTI-ISSUED-A", Some("proof-a")).unwrap();
    w.issue(student_a, "COURSE-MULTI-ISSUED-A", "CERT-MULTI-ISSUED-A", "Course A").unwrap();
    w.enroll(student_b, "COURSE-MULTI-ISSUED-B").unwrap();
    w.complete(student_b, "COURSE-MULTI-ISSUED-B", Some("proof-b")).unwrap();
    w.issue(student_b, "COURSE-MULTI-ISSUED-B", "CERT-MULTI-ISSUED-B", "Course B").unwrap();
    let a = w.c.get_certificate(admin, &s("CERT-MULTI-ISSUED-A")).unwrap().issued_by;
    let b = w.c.get_certificate(admin, &s("CERT-MULTI-ISSUED-B")).unwrap().issued_by;
    assert_eq!(a, CONTRACT);
    assert_eq!(b, CONTRACT);
    assert_eq!(a, b);
}

// ------------------------------------------------------------------
// Refund window
// ------------------------------------------------------------------

#[test]
fn test_init_sets_refund_window() {
    let w = World::setup_with_window(500);
    assert_eq!(w.c.get_refund_window(), 500);
}

#[test]
fn test_refund_request_within_window_succeeds() {
    let mut w = World::setup();
    let instructor = w.instructor;
    let student = w.generate();
    w.mint(student, 1_000_000_000);
    w.register_and_approve(instructor, "COURSE-WINDOW-IN", 200_000_000);
    w.enroll(student, "COURSE-WINDOW-IN").unwrap();
    w.advance(500);
    w.c.request_refund(w.now, student, &s("COURSE-WINDOW-IN")).unwrap();
    assert_eq!(
        w.c.get_refund_request(student, &s("COURSE-WINDOW-IN")).unwrap().status,
        hamplard::model::RefundStatus::Pending
    );
}

#[test]
fn test_refund_request_at_window_boundary_succeeds() {
    let mut w = World::setup();
    let (instructor, admin) = (w.instructor, w.admin);
    let student = w.generate();
    w.mint(student, 1_000_000_000);
    w.c.update_refund_window(w.now, admin, 10).unwrap();
    w.register_and_approve(instructor, "COURSE-WINDOW-BOUND", 100_000_000);
    w.enroll(student, "COURSE-WINDOW-BOUND").unwrap();
    w.now += 10;
    w.c.request_refund(w.now, student, &s("COURSE-WINDOW-BOUND")).unwrap();
    assert_eq!(
        w.c.get_refund_request(student, &s("COURSE-WINDOW-BOUND")).unwrap().status,
        hamplard::model::RefundStatus::Pending
    );
}

#[test]
fn test_refund_request_one_ledger_past_window_rejected() {
    let mut w = World::setup();
    let (instructor, admin) = (w.instructor, w.admin);
    let student = w.generate();
    w.mint(student, 1_000_000_000);
    w.c.update_refund_window(w.now, admin, 10).unwrap();
    w.register_and_approve(instructor, "COURSE-WINDOW-PAST", 100_000_000);
    w.enroll(student, "COURSE-WINDOW-PAST").unwrap();
    w.now += 11;
    assert_eq!(
        w.c.request_refund(w.now, student, &s("COURSE-WINDOW-PAST")),
        Err(ContractError::RefundWindowExpired)
    );
}

#[test]
fn test_refund_request_far_past_window_rejected() {
    let mut w = World::setup();
    let (instructor, admin) = (w.instructor, w.admin);
    let student = w.generate();
    w.mint(student, 1_000_000_000);
    w.c.update_refund_window(w.now, admin, 5).unwrap();
    w.register_and_approve(instructor, "COURSE-WINDOW-FAR", 100_000_000);
    w.enroll(student, "COURSE-WINDOW-FAR").unwrap();
    w.advance(1_000);
    assert_eq!(
        w.c.request_refund(w.now, student, &s("COURSE-WINDOW-FAR")),
        Err(ContractError::RefundWindowExpired)
    );
}

#[test]
fn test_admin_can_extend_refund_window_after_init() {
    let mut w = World::setup();
    let (instructor, admin) = (w.instructor, w.admin);
    let student = w.generate();
    w.mint(student, 1_000_000_000);
    w.c.update_refund_window(w.now, admin, 5).unwrap();
    w.register_and_approve(instructor, "COURSE-WINDOW-EXT", 100_000_000);
    w.enroll(student, "COURSE-WINDOW-EXT").unwrap();
    w.now += 6;
    w.c.update_refund_window(w.now, admin, 20).unwrap();
    assert_eq!(w.c.get_refund_window(), 20);
    w.c.request_refund(w.now, student, &s("COURSE-WINDOW-EXT")).unwrap();
    assert_eq!(
        w.c.get_refund_request(student, &s("COURSE-WINDOW-EXT")).unwrap().status,
        hamplard::model::RefundStatus::Pending
    );
}

#[test]
fn test_refund_window_zero_rejects_all_requests() {
    let mut w = World::setup();
    let (instructor, admin) = (w.instructor, w.admin);
    let student = w.generate();
    w.mint(student, 1_000_000_000);
    w.c.update_refund_window(w.now, admin, 0).unwrap();
    w.register_and_approve(instructor, "COURSE-WINDOW-ZERO", 100_000_000);
    w.enroll(student, "COURSE-WINDOW-ZERO").unwrap();
    w.advance(1);
    let result = w.c.request_refund(w.now, student, &s("COURSE-WINDOW-ZERO"));
    assert!(result.is_err(), "window=0 should reject any refund request after enrollment ledger");
}

// ------------------------------------------------------------------
// Course reads
// ------------------------------------------------------------------

#[test]
fn test_get_course_extends_ttl_on_read() {
    let mut w = World::setup();
    let instructor = w.instructor;
    w.register_and_approve(instructor, "COURSE-TTL-READ", 100_000_000);
    w.advance(100_001);
    assert!(w.c.get_course(&s("COURSE-TTL-READ")).is_some(), "course should still be readable");
}

#[test]
fn test_get_course_extends_ttl_on_each_successive_read() {
    let mut w = World::setup();
    let instructor = w.instructor;
    w.register_and_approve(instructor, "COURSE-TTL-MULTI", 100_000_000);
    for _ in 0..5 {
        w.advance(100_001);
        assert!(w.c.get_course(&s("COURSE-TTL-MULTI")).is_some(), "course must survive successive reads");
    }
}

#[test]
fn test_get_course_returns_none_without_error_for_missing_course() {
    let w = World::setup();
    assert!(w.c.get_course(&s("COURSE-DOES-NOT-EXIST")).is_none());
}

#[test]
fn test_get_course_ttl_extension_does_not_mutate_course_data() {
    let mut w = World::setup();
    let instructor = w.instructor;
    w.register_and_approve(instructor, "COURSE-TTL-IMMUT", 250_000_000);
    let before = w.c.get_course(&s("COURSE-TTL-IMMUT")).unwrap();
    w.advance(100_001);
    let after = w.c.get_course(&s("COURSE-TTL-IMMUT")).unwrap();
    assert_eq!(before.id, after.id);
    assert_eq!(before.price, after.price);
    assert_eq!(before.status, after.status);
    assert_eq!(before.instructor, after.instructor);
    assert_eq!(before.total_enrollments, after.total_enrollments);
    assert_eq!(before.content_hash, after.content_hash);
    assert_eq!(before.last_updated_ledger, after.last_updated_ledger);
}

// ------------------------------------------------------------------
// Content hash
// ------------------------------------------------------------------

fn register_with_hash(w: &mut World, id: &str, price: i128, hash: [u8; 32]) {
    let instructor = w.instructor;
    w.c.register_course(w.now, instructor, &s(id), price, TOKEN, DECIMALS, 0, None, hash).unwrap();
}

#[test]
fn test_register_course_stores_content_hash() {
    let mut w = World::setup();
    register_with_hash(&mut w, "COURSE-HASH-STORE", 100_000_000, [0xABu8; 32]);
    assert_eq!(w.c.get_course(&s("COURSE-HASH-STORE")).unwrap().content_hash, [0xABu8; 32]);
}

#[test]
fn test_register_course_distinct_hashes_stored_independently() {
    let mut w = World::setup();
    register_with_hash(&mut w, "COURSE-HASH-A", 100_000_000, [0x11u8; 32]);
    register_with_hash(&mut w, "COURSE-HASH-B", 200_000_000, [0x22u8; 32]);
    let a = w.c.get_course(&s("COURSE-HASH-A")).unwrap();
    let b = w.c.get_course(&s("COURSE-HASH-B")).unwrap();
    assert_eq!(a.content_hash, [0x11u8; 32]);
    assert_eq!(b.content_hash, [0x22u8; 32]);
    assert_ne!(a.content_hash, b.content_hash);
}

#[test]
fn test_instructor_can_update_content_hash_on_active_course() {
    let mut w = World::setup();
    let instructor = w.instructor;
    register_with_hash(&mut w, "COURSE-HASH-UPDATE-INSTR", 100_000_000, [0x01u8; 32]);
    w.approve("COURSE-HASH-UPDATE-INSTR").unwrap();
    w.c.update_content_hash(w.now, instructor, &s("COURSE-HASH-UPDATE-INSTR"), [0x02u8; 32]).unwrap();
    assert_eq!(w.c.get_course(&s("COURSE-HASH-UPDATE-INSTR")).unwrap().content_hash, [0x02u8; 32]);
}

#[test]
fn test_admin_can_update_content_hash() {
    let mut w = World::setup();
    let admin = w.admin;
    register_with_hash(&mut w, "COURSE-HASH-UPDATE-ADMIN", 100_000_000, [0x03u8; 32]);
    w.approve("COURSE-HASH-UPDATE-ADMIN").unwrap();
    w.c.update_content_hash(w.now, admin, &s("COURSE-HASH-UPDATE-ADMIN"), [0x04u8; 32]).unwrap();
    assert_eq!(w.c.get_course(&s("COURSE-HASH-UPDATE-ADMIN")).unwrap().content_hash, [0x04u8; 32]);
}

#[test]
fn test_instructor_can_update_content_hash_on_paused_course() {
    let mut w = World::setup();
    let instructor = w.instructor;
    w.register_and_approve(instructor, "COURSE-HASH-UPDATE-PAUSED", 100_000_000);
    w.c.pause_course(w.now, instructor, &s("COURSE-HASH-UPDATE-PAUSED")).unwrap();
    w.c.update_content_hash(w.now, instructor, &s("COURSE-HASH-UPDATE-PAUSED"), [0x05u8; 32]).unwrap();
    assert_eq!(w.c.get_course(&s("COURSE-HASH-UPDATE-PAUSED")).unwrap().content_hash, [0x05u8; 32]);
}

#[test]
fn test_update_content_hash_archived_course_rejected() {
    let mut w = World::setup();
    let (instructor, admin) = (w.instructor, w.admin);
    w.register_and_approve(instructor, "COURSE-HASH-ARCHIVED", 100_000_000);
    w.c.pause_course(w.now, admin, &s("COURSE-HASH-ARCHIVED")).unwrap();
    w.archive("COURSE-HASH-ARCHIVED", None).unwrap();
    assert_eq!(
        w.c.update_content_hash(w.now, instructor, &s("COURSE-HASH-ARCHIVED"), [0x06u8; 32]),
        Err(ContractError::ContentHashArchivedCourse)
    );
}

#[test]
fn test_update_content_hash_random_caller_rejected() {
    let mut w = World::setup();
    let instructor = w.instructor;
    let attacker = w.generate();
    w.register_and_approve(instructor, "COURSE-HASH-UNAUTH", 100_000_000);
    assert_eq!(
        w.c.update_content_hash(w.now, attacker, &s("COURSE-HASH-UNAUTH"), [0x07u8; 32]),
        Err(ContractError::Unauthorized)
    );
}

#[test]
fn test_update_content_hash_updates_last_updated_ledger() {
    let mut w = World::setup();
    let instructor = w.instructor;
    w.register_and_approve(instructor, "COURSE-HASH-LEDGER", 100_000_000);
    w.advance(100);
    let at = w.now;
    w.c.update_content_hash(w.now, instructor, &s("COURSE-HASH-LEDGER"), [0x09u8; 32]).unwrap();
    assert_eq!(w.c.get_course(&s("COURSE-HASH-LEDGER")).unwrap().last_updated_ledger, at);
}

#[test]
fn test_content_hash_survives_enroll_and_completion() {
    let mut w = World::setup();
    register_with_hash(&mut w, "COURSE-HASH-PERSIST", 100_000_000, [0xDDu8; 32]);
    w.advance(1);
    w.approve("COURSE-HASH-PERSIST").unwrap();
    let student = w.generate();
    w.mint(student, 1_000_000_000);
    w.enroll(student, "COURSE-HASH-PERSIST").unwrap();
    w.complete(student, "COURSE-HASH-PERSIST", Some("proof")).unwrap();
    assert_eq!(
        w.c.get_course(&s("COURSE-HASH-PERSIST")).unwrap().content_hash,
        [0xDDu8; 32],
        "content_hash must not be modified by enroll or mark_completed"
    );
}

// ------------------------------------------------------------------
// Admin expiry
// ------------------------------------------------------------------

#[test]
fn test_admin_operations_succeed_before_expiry() {
    let mut w = World::setup();
    let (admin, sec) = (w.admin, w.sec_admin);
    w.c.set_admin_expiry(w.now, admin, sec, Some(w.now + 1000)).unwrap();
    w.c.update_default_fee(w.now, admin, 25).unwrap();
    assert_eq!(w.fee(), 25);
}

#[test]
fn test_admin_operations_blocked_after_expiry() {
    let mut w = World::setup();
    let (admin, sec) = (w.admin, w.sec_admin);
    w.c.set_admin_expiry(w.now, admin, sec, Some(w.now + 10)).unwrap();
    w.advance(11);
    assert_eq!(w.c.update_default_fee(w.now, admin, 30), Err(ContractError::AdminExpired));
}

#[test]
fn test_remove_admin_expiry() {
    let mut w = World::setup();
    let (admin, sec) = (w.admin, w.sec_admin);
    let current = w.now;
    w.c.set_admin_expiry(w.now, admin, sec, Some(current + 10)).unwrap();
    assert_eq!(w.c.get_admin_expiry(), Some(current + 10));
    w.c.set_admin_expiry(w.now, admin, sec, None).unwrap();
    assert_eq!(w.c.get_admin_expiry(), None);
    w.advance(1000);
    w.c.update_default_fee(w.now, admin, 35).unwrap();
    assert_eq!(w.fee(), 35);
}

// ------------------------------------------------------------------
// Platform pause and enrollment cap
// ------------------------------------------------------------------

#[test]
fn test_platform_pause_lifecycle_end_to_end() {
    let mut w = World::setup();
    let (instructor, admin) = (w.instructor, w.admin);
    let id = "COURSE-PAUSE-TEST";
    w.register_and_approve(instructor, id, 100_000_000);
    let student = w.generate();
    w.mint(student, 1_000_000_000);
    w.enroll(student, id).unwrap();
    assert!(w.c.is_enrolled(student, &s(id)));
    w.complete(student, id, Some("evidence")).unwrap();
    w.c.pause_platform(w.now, admin).unwrap();
    let student2 = w.generate();
    w.mint(student2, 1_000_000_000);
    assert!(w.enroll(student2, id).is_err());
    assert!(w.re_enroll(student, id).is_err());
    assert!(w.batch_enroll(student2, &[id]).is_err());
    w.c.unpause_platform(w.now, admin).unwrap();
    w.enroll(student2, id).unwrap();
    assert!(w.c.is_enrolled(student2, &s(id)));
}

#[test]
fn test_enroll_blocked_during_platform_pause() {
    let mut w = World::setup();
    let (instructor, admin) = (w.instructor, w.admin);
    w.register_and_approve(instructor, "COURSE-001", 100_000_000);
    let student = w.generate();
    w.mint(student, 1_000_000_000);
    w.c.pause_platform(w.now, admin).unwrap();
    assert_eq!(w.enroll(student, "COURSE-001").err(), Some(Fail::Contract(ContractError::PlatformPaused)));
}

#[test]
fn test_batch_enroll_blocked_during_platform_pause() {
    let mut w = World::setup();
    let (instructor, admin) = (w.instructor, w.admin);
    w.register_and_approve(instructor, "COURSE-001", 100_000_000);
    let student = w.generate();
    w.mint(student, 1_000_000_000);
    w.c.pause_platform(w.now, admin).unwrap();
    assert_eq!(
        w.batch_enroll(student, &["COURSE-001"]).err(),
        Some(Fail::Contract(ContractError::PlatformPaused))
    );
}

#[test]
fn test_enrollment_succeeds_below_platform_cap() {
    let mut w = World::setup();
    let (instructor, admin) = (w.instructor, w.admin);
    w.c.set_platform_enrollment_cap(w.now, admin, Some(2)).unwrap();
    w.register_and_approve(instructor, "COURSE-001", 100_000_000);
    let student1 = w.generate();
    let student2 = w.generate();
    w.mint(student1, 1_000_000_000);
    w.mint(student2, 1_000_000_000);
    w.enroll(student1, "COURSE-001").unwrap();
    assert_eq!(w.c.get_total_active_enrollments(), 1);
    w.enroll(student2, "COURSE-001").unwrap();
    assert_eq!(w.c.get_total_active_enrollments(), 2);
}

#[test]
fn test_enrollment_blocked_at_platform_cap() {
    let mut w = World::setup();
    let (instructor, admin) = (w.instructor, w.admin);
    w.c.set_platform_enrollment_cap(w.now, admin, Some(1)).unwrap();
    w.register_and_approve(instructor, "COURSE-001", 100_000_000);
    let student1 = w.generate();
    let student2 = w.generate();
    w.mint(student1, 1_000_000_000);
    w.mint(student2, 1_000_000_000);
    w.enroll(student1, "COURSE-001").unwrap();
    assert_eq!(w.c.get_total_active_enrollments(), 1);
    assert_eq!(
        w.enroll(student2, "COURSE-001").err(),
        Some(Fail::Contract(ContractError::PlatformCapReached))
    );
}

#[test]
fn test_platform_counter_decrements_on_completion() {
    let mut w = World::setup();
    let (instructor, admin) = (w.instructor, w.admin);
    w.c.set_platform_enrollment_cap(w.now, admin, Some(2)).unwrap();
    w.register_and_approve(instructor, "COURSE-001", 100_000_000);
    let student1 = w.generate();
    let student2 = w.generate();
    w.mint(student1, 1_000_000_000);
    w.mint(student2, 1_000_000_000);
    w.enroll(student1, "COURSE-001").unwrap();
    w.enroll(student2, "COURSE-001").unwrap();
    assert_eq!(w.c.get_total_active_enrollments(), 2);
    w.complete(student1, "COURSE-001", Some("evidence")).unwrap();
    assert_eq!(w.c.get_total_active_enrollments(), 1);
    let student3 = w.generate();
    w.mint(student3, 1_000_000_000);
    w.enroll(student3, "COURSE-001").unwrap();
    assert_eq!(w.c.get_total_active_enrollments(), 2);
}

#[test]
fn test_platform_counter_decrements_on_refund() {
    let mut w = World::setup();
    let (instructor, admin) = (w.instructor, w.admin);
    w.c.set_platform_enrollment_cap(w.now, admin, Some(2)).unwrap();
    w.register_and_approve(instructor, "COURSE-001", 100_000_000);
    let student1 = w.generate();
    let student2 = w.generate();
    w.mint(student1, 1_000_000_000);
    w.mint(student2, 1_000_000_000);
    w.enroll(student1, "COURSE-001").unwrap();
    w.enroll(student2, "COURSE-001").unwrap();
    assert_eq!(w.c.get_total_active_enrollments(), 2);
    w.c.request_refund(w.now, student1, &s("COURSE-001")).unwrap();
    w.process_refund(admin, student1, "COURSE-001", true).unwrap();
    assert_eq!(w.c.get_total_active_enrollments(), 1);
    let student3 = w.generate();
    w.mint(student3, 1_000_000_000);
    w.enroll(student3, "COURSE-001").unwrap();
    assert_eq!(w.c.get_total_active_enrollments(), 2);
}

// ------------------------------------------------------------------
// Completion on paused and archived courses
// ------------------------------------------------------------------

#[test]
fn test_mark_completed_on_archived_course_rejected() {
    let mut w = World::setup();
    let (instructor, admin) = (w.instructor, w.admin);
    w.register_and_approve(instructor, "COURSE-001", 100_000_000);
    let student = w.generate();
    w.mint(student, 1_000_000_000);
    w.enroll(student, "COURSE-001").unwrap();
    w.complete(student, "COURSE-001", Some("evidence")).unwrap();
    w.c.pause_course(w.now, admin, &s("COURSE-001")).unwrap();
    w.archive("COURSE-001", None).unwrap();
    assert_eq!(
        w.complete(student, "COURSE-001", Some("evidence")),
        Err(ContractError::CannotCompleteArchivedCourse)
    );
}

#[test]
fn test_mark_completed_rejects_archived_course_even_with_active_enrollment() {
    let mut w = World::setup();
    let (instructor, admin) = (w.instructor, w.admin);
    w.register_and_approve(instructor, "COURSE-001", 100_000_000);
    let student = w.generate();
    w.mint(student, 1_000_000_000);
    w.enroll(student, "COURSE-001").unwrap();
    w.c.pause_course(w.now, admin, &s("COURSE-001")).unwrap();
    w.archive("COURSE-001", Some(vec![student])).unwrap();
    assert_eq!(
        w.complete(student, "COURSE-001", Some("evidence")),
        Err(ContractError::CannotCompleteArchivedCourse)
    );
}

#[test]
fn test_mark_completed_succeeds_on_paused_course() {
    let mut w = World::setup();
    let (instructor, admin) = (w.instructor, w.admin);
    w.register_and_approve(instructor, "COURSE-001", 100_000_000);
    let student = w.generate();
    w.mint(student, 1_000_000_000);
    w.enroll(student, "COURSE-001").unwrap();
    w.c.pause_course(w.now, admin, &s("COURSE-001")).unwrap();
    w.complete(student, "COURSE-001", Some("evidence")).unwrap();
    let e = w.c.get_enrollment(admin, student, &s("COURSE-001")).unwrap().unwrap();
    assert!(e.completed);
}
