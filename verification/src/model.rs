//! The platform's records and their mathematical views.
use vstd::prelude::*;
use crate::table::{Addr, Dup, copy_bytes};

verus! {

/// The status of a course listing.
#[derive(Clone, Copy, Debug, PartialEq, Eq, Structural)]
pub enum CourseStatus {
    /// Submitted by instructor, awaiting admin approval.
    Pending,
    /// Approved by admin, visible and enrollable.
    Active,
    /// Paused by instructor or admin, not enrollable.
    Paused,
    /// Permanently removed from the platform.
    Archived,
    /// Rejected by admin.
    Rejected,
}

/// The status of a refund request.
#[derive(Clone, Copy, Debug, PartialEq, Eq, Structural)]
pub enum RefundStatus {
    Pending,
    Approved,
    Rejected,
}

/// Per-token fee configuration, in basis points (0-10000).
#[derive(Clone, Copy, Debug, PartialEq, Eq, Structural)]
pub struct FeeConfig {
    pub fee_bps: u32,
}

/// Arbitration fee per escalated dispute, in token stroops.
#[derive(Clone, Copy, Debug, PartialEq, Eq, Structural)]
pub struct ArbitrationFeeConfig {
    pub fee_per_case: i128,
}

/// Parameters of the risk-based fee surcharges.
#[derive(Clone, Copy, Debug, PartialEq, Eq, Structural)]
pub struct RiskFeeConfig {
    pub large_payment_surcharge_bps: u32,
    pub large_payment_threshold: i128,
    pub new_customer_surcharge_bps: u32,
    pub btc_eth_surcharge_bps: u32,
}

/// A computed risk score with its surcharge.
#[derive(Clone, Copy, Debug, PartialEq, Eq, Structural)]
pub struct RiskScore {
    pub score: u32,
    pub surcharge_bps: u32,
}

/// The full fee breakdown of one payment.
#[derive(Clone, Copy, Debug, PartialEq, Eq, Structural)]
pub struct RiskFeeApplied {
    pub payment_amount: i128,
    pub base_fee_bps: u32,
    pub risk_surcharge_bps: u32,
    pub effective_fee_bps: u32,
    pub platform_fee: i128,
}

/// Aggregate reputation counters of an instructor.
#[derive(Clone, Copy, Debug, PartialEq, Eq, Structural)]
pub struct InstructorStats {
    pub total_students: u32,
    pub total_completions: u32,
    pub total_certificates: u32,
}

/// A scheduled treasury change.
#[derive(Clone, Copy, Debug, PartialEq, Eq, Structural)]
pub struct TreasuryUpdate {
    pub address: Addr,
    pub effective_ledger: u32,
}

/// A proposed code upgrade awaiting its time-lock.
#[derive(Clone, Copy, Debug, PartialEq, Eq)]
pub struct PendingUpgrade {
    pub new_wasm_hash: [u8; 32],
    pub proposed_at_ledger: u32,
    pub effective_ledger: u32,
}

/// A token movement the contract makes or orders.
#[derive(Clone, Copy, Debug, PartialEq, Eq, Structural)]
pub struct Transfer {
    pub token: Addr,
    pub from: Addr,
    pub to: Addr,
    pub amount: i128,
}

/// What one enrollment charged and where the money goes.
#[derive(Clone, Copy, Debug, PartialEq, Eq, Structural)]
pub struct EnrollReceipt {
    pub student: Addr,
    pub instructor: Addr,
    pub token: Addr,
    pub treasury: Addr,
    pub price: i128,
    pub platform_amount: i128,
    pub instructor_amount: i128,
    /// The fee breakdown, for a paid course.
    pub breakdown: Option<RiskFeeApplied>,
    /// The student's payment into the contract, for a paid course.
    pub payment: Option<Transfer>,
    /// The platform fee forwarded to the treasury, when positive.
    pub fee_transfer: Option<Transfer>,
}

/// Why an operation was refused.
#[derive(Clone, Copy, Debug, PartialEq, Eq, Structural)]
pub enum ContractError {
    AlreadyInitialized,
    NotInitialized,
    FeeTooHigh,
    FeeBelowMinimum,
    TreasuryIsContract,
    AdminIsTreasury,
    SecondaryAdminIsTreasury,
    AdminsNotDistinct,
    CourseNotFound,
    Unauthorized,
    NotAdmin,
    NotAdminOrApprover,
    NotMultiAdmin,
    AdminExpired,
    InstructorFrozen,
    CannotUpdateArchivedCourse,
    TokenDecimalsMismatch,
    CourseIdEmpty,
    CourseIdTooLong,
    CourseIdInvalidCharacters,
    MaxCapacityZero,
    PriceNegative,
    PriceOutOfRange,
    CourseAlreadyRegistered,
    MaxCoursesReached,
    MaxPendingCoursesReached,
    GovernanceWindow,
    ReviewPeriod,
    CourseNotPending,
    CountUnderflow,
    CourseNotActive,
    CourseNotPaused,
    CannotTransferArchivedCourse,
    SameInstructor,
    CourseMustBePaused,
    TreasuryNotSet,
    InsufficientInstructorEarnings,
    InconsistentTotalEarnings,
    Overflow,
    ActiveEnrollmentsRemain,
    OwnPrerequisite,
    PrerequisiteNotFound,
    ContentHashArchivedCourse,
    MaxCertificatesArchivedCourse,
    MaxCertificatesBelowIssued,
    CourseListEmpty,
    DuplicateCourseInBatch,
    PlatformPaused,
    StudentBlocked,
    AdminCannotEnroll,
    InstructorRefNotFound,
    InstructorRefMismatch,
    InstructorSelfEnroll,
    CourseNotAvailable,
    SameLedgerEnrollment,
    EnrollmentNotStarted,
    AlreadyEnrolled,
    CourseFull,
    CourseExpired,
    TokenNotApproved,
    PrerequisiteNotCompleted,
    PlatformCapReached,
    NoPriorEnrollment,
    EnrollmentNotCompleted,
    NegativeWithdrawal,
    InsufficientEarnings,
    EvidenceEmpty,
    StudentBlockedFromCompletion,
    CannotCompleteArchivedCourse,
    EnrollmentNotFound,
    CannotCompleteRefunded,
    MinDurationNotElapsed,
    EnrollmentCourseMismatch,
    AlreadyCompleted,
    EnrollmentExpired,
    CertificateIdEmpty,
    CertificateIdTooLong,
    TitleTooLong,
    ReferenceEmpty,
    ReferenceTooLong,
    StudentBlockedFromCertificate,
    CannotCertifyRefunded,
    NotCompleted,
    CertificateAlreadyIssued,
    CertificateIdExists,
    MaxCertificatesReached,
    CertificateNotFound,
    AlreadyRevoked,
    NoCertificates,
    NotCertificateHolder,
    NoPendingRevocation,
    ChallengeExpired,
    AdminsIdentical,
    NoPendingAdmin,
    NoPendingSecondaryAdmin,
    NotPendingAdmins,
    TreasuryIsAdmin,
    TreasuryIsSecondaryAdmin,
    TreasuryUnchanged,
    ApproverIsAdmin,
    AlreadyApprover,
    NotApprover,
    ExpiryNotInFuture,
    StudentBlockedFromRefund,
    RefundWindowExpired,
    RefundRequestExists,
    RefundRequestNotFound,
    RefundNotPending,
    NoPendingUpgrade,
    UpgradeTimelockActive,
    FeeBpsTooHigh,
    NegativeArbitrationFee,
    NegativeThreshold,
    ArbitrationNotConfigured,
    AdminCannotJoinWaitlist,
    InstructorCannotJoinWaitlist,
    AlreadyOnWaitlist,
    CapacityAvailable,
    NoCapacityLimit,
    NoWaitlist,
    NotOnWaitlist,
    TransferAmountMismatch,
}

/// The record of an enrollment refused because the course was not Active,
/// as published for off-chain auditing.
pub struct EnrollmentRejected {
    pub course_id: Vec<u8>,
    pub student: Addr,
    pub status: CourseStatus,
    pub ledger_sequence: u32,
}

/// A course listing.
pub struct Course {
    pub id: Vec<u8>,
    pub instructor: Addr,
    pub price: i128,
    pub platform_fee_percent: u32,
    pub token: Addr,
    pub total_enrollments: u32,
    pub active_enrollments: u32,
    pub total_earned: i128,
    pub status: CourseStatus,
    pub created_at_ledger: u32,
    pub max_capacity: Option<u32>,
    pub enrollment_start_ledger: Option<u32>,
    pub enrollment_expiry_ledgers: Option<u32>,
    pub min_completion_ledgers: u32,
    pub version: u32,
    pub last_updated_ledger: u32,
    pub expires_at_ledger: Option<u32>,
    pub content_hash: [u8; 32],
    pub max_certificates: Option<u32>,
    pub certificates_issued: u32,
    pub prerequisite_course_ids: Vec<Vec<u8>>,
    pub archived_at_ledger: Option<u32>,
}

pub struct CourseView {
    pub id: Seq<u8>,
    pub instructor: Addr,
    pub price: i128,
    pub platform_fee_percent: u32,
    pub token: Addr,
    pub total_enrollments: u32,
    pub active_enrollments: u32,
    pub total_earned: i128,
    pub status: CourseStatus,
    pub created_at_ledger: u32,
    pub max_capacity: Option<u32>,
    pub enrollment_start_ledger: Option<u32>,
    pub enrollment_expiry_ledgers: Option<u32>,
    pub min_completion_ledgers: u32,
    pub version: u32,
    pub last_updated_ledger: u32,
    pub expires_at_ledger: Option<u32>,
    pub content_hash: Seq<u8>,
    pub max_certificates: Option<u32>,
    pub certificates_issued: u32,
    pub prerequisite_course_ids: Seq<Seq<u8>>,
    pub archived_at_ledger: Option<u32>,
}

/// The views of a list of byte strings.
pub open spec fn texts(v: Seq<Vec<u8>>) -> Seq<Seq<u8>> {
    v.map_values(|t: Vec<u8>| t@)
}

/// The view of an optional byte string.
pub open spec fn opt_text(o: Option<Vec<u8>>) -> Option<Seq<u8>> {
    match o {
        Some(t) => Some(t@),
        None => None,
    }
}

impl View for Course {
    type V = CourseView;

    open spec fn view(&self) -> CourseView {
        CourseView {
            id: self.id@,
            instructor: self.instructor,
            price: self.price,
            platform_fee_percent: self.platform_fee_percent,
            token: self.token,
            total_enrollments: self.total_enrollments,
            active_enrollments: self.active_enrollments,
            total_earned: self.total_earned,
            status: self.status,
            created_at_ledger: self.created_at_ledger,
            max_capacity: self.max_capacity,
            enrollment_start_ledger: self.enrollment_start_ledger,
            enrollment_expiry_ledgers: self.enrollment_expiry_ledgers,
            min_completion_ledgers: self.min_completion_ledgers,
            version: self.version,
            last_updated_ledger: self.last_updated_ledger,
            expires_at_ledger: self.expires_at_ledger,
            content_hash: self.content_hash@,
            max_certificates: self.max_certificates,
            certificates_issued: self.certificates_issued,
            prerequisite_course_ids: texts(self.prerequisite_course_ids@),
            archived_at_ledger: self.archived_at_ledger,
        }
    }
}

/// Copies a list of byte strings.
pub fn copy_texts(v: &Vec<Vec<u8>>) -> (r: Vec<Vec<u8>>)
    ensures
        texts(r@) == texts(v@),
{
    let mut r: Vec<Vec<u8>> = Vec::new();
    let mut i: usize = 0;
    while i < v.len()
        invariant
            i <= v.len(),
            r.len() == i,
            texts(r@) == texts(v@.subrange(0, i as int)),
        decreases v.len() - i,
    {
        let ghost prev = r@;
        r.push(copy_bytes(&v[i]));
        i = i + 1;
        assert forall|j: int| 0 <= j < i implies #[trigger] texts(r@)[j] == texts(
            v@.subrange(0, i as int),
        )[j] by {
            if j < i - 1 {
                assert(r@[j] == prev[j]);
                assert(texts(prev)[j] == texts(v@.subrange(0, i - 1))[j]);
            }
        }
        assert(texts(r@) =~= texts(v@.subrange(0, i as int)));
    }
    assert(v@.subrange(0, v.len() as int) =~= v@);
    r
}

/// Copies an optional byte string.
pub fn copy_opt_text(o: &Option<Vec<u8>>) -> (r: Option<Vec<u8>>)
    ensures
        opt_text(r) == opt_text(*o),
{
    match o {
        Some(t) => Some(copy_bytes(t)),
        None => None,
    }
}

impl Course {
    /// A field-by-field copy.
    pub fn duplicate(&self) -> (r: Course)
        ensures
            r@ == self@,
    {
        Course {
            id: copy_bytes(&self.id),
            instructor: self.instructor,
            price: self.price,
            platform_fee_percent: self.platform_fee_percent,
            token: self.token,
            total_enrollments: self.total_enrollments,
            active_enrollments: self.active_enrollments,
            total_earned: self.total_earned,
            status: self.status,
            created_at_ledger: self.created_at_ledger,
            max_capacity: self.max_capacity,
            enrollment_start_ledger: self.enrollment_start_ledger,
            enrollment_expiry_ledgers: self.enrollment_expiry_ledgers,
            min_completion_ledgers: self.min_completion_ledgers,
            version: self.version,
            last_updated_ledger: self.last_updated_ledger,
            expires_at_ledger: self.expires_at_ledger,
            content_hash: self.content_hash,
            max_certificates: self.max_certificates,
            certificates_issued: self.certificates_issued,
            prerequisite_course_ids: copy_texts(&self.prerequisite_course_ids),
            archived_at_ledger: self.archived_at_ledger,
        }
    }
}

/// An enrollment record, one per student per course.
pub struct Enrollment {
    pub student: Addr,
    pub course_id: Vec<u8>,
    pub amount_paid: i128,
    pub enrolled_at_ledger: u32,
    pub completed: bool,
    pub certificate_issued: bool,
    pub certificate_id: Option<Vec<u8>>,
    pub evidence_hash: Option<Vec<u8>>,
    pub is_refunded: bool,
    pub course_version: u32,
    pub platform_amount: i128,
    pub instructor_amount: i128,
    pub enrollment_ref: Vec<u8>,
}

pub struct EnrollmentView {
    pub student: Addr,
    pub course_id: Seq<u8>,
    pub amount_paid: i128,
    pub enrolled_at_ledger: u32,
    pub completed: bool,
    pub certificate_issued: bool,
    pub certificate_id: Option<Seq<u8>>,
    pub evidence_hash: Option<Seq<u8>>,
    pub is_refunded: bool,
    pub course_version: u32,
    pub platform_amount: i128,
    pub instructor_amount: i128,
    pub enrollment_ref: Seq<u8>,
}

impl View for Enrollment {
    type V = EnrollmentView;

    open spec fn view(&self) -> EnrollmentView {
        EnrollmentView {
            student: self.student,
            course_id: self.course_id@,
            amount_paid: self.amount_paid,
            enrolled_at_ledger: self.enrolled_at_ledger,
            completed: self.completed,
            certificate_issued: self.certificate_issued,
            certificate_id: opt_text(self.certificate_id),
            evidence_hash: opt_text(self.evidence_hash),
            is_refunded: self.is_refunded,
            course_version: self.course_version,
            platform_amount: self.platform_amount,
            instructor_amount: self.instructor_amount,
            enrollment_ref: self.enrollment_ref@,
        }
    }
}

impl Enrollment {
    /// A field-by-field copy.
    pub fn duplicate(&self) -> (r: Enrollment)
        ensures
            r@ == self@,
    {
        Enrollment {
            student: self.student,
            course_id: copy_bytes(&self.course_id),
            amount_paid: self.amount_paid,
            enrolled_at_ledger: self.enrolled_at_ledger,
            completed: self.completed,
            certificate_issued: self.certificate_issued,
            certificate_id: copy_opt_text(&self.certificate_id),
            evidence_hash: copy_opt_text(&self.evidence_hash),
            is_refunded: self.is_refunded,
            course_version: self.course_version,
            platform_amount: self.platform_amount,
            instructor_amount: self.instructor_amount,
            enrollment_ref: copy_bytes(&self.enrollment_ref),
        }
    }
}

/// An on-chain certificate of completion.
pub struct Certificate {
    pub id: Vec<u8>,
    pub student: Addr,
    pub course_id: Vec<u8>,
    pub course_title: Vec<u8>,
    pub enrollment_reference: Vec<u8>,
    pub instructor: Addr,
    pub issued_by: Addr,
    pub issued_at_ledger: u32,
    pub revoked: bool,
    pub revoked_by: Option<Addr>,
    pub revocation_ledger: Option<u32>,
    pub revocation_reason: Option<Vec<u8>>,
    pub expires_at_ledger: Option<u32>,
    pub instructor_signature: Option<[u8; 64]>,
    pub revocation_deadline: Option<u32>,
}

pub struct CertificateView {
    pub id: Seq<u8>,
    pub student: Addr,
    pub course_id: Seq<u8>,
    pub course_title: Seq<u8>,
    pub enrollment_reference: Seq<u8>,
    pub instructor: Addr,
    pub issued_by: Addr,
    pub issued_at_ledger: u32,
    pub revoked: bool,
    pub revoked_by: Option<Addr>,
    pub revocation_ledger: Option<u32>,
    pub revocation_reason: Option<Seq<u8>>,
    pub expires_at_ledger: Option<u32>,
    pub instructor_signature: Option<[u8; 64]>,
    pub revocation_deadline: Option<u32>,
}

impl View for Certificate {
    type V = CertificateView;

    open spec fn view(&self) -> CertificateView {
        CertificateView {
            id: self.id@,
            student: self.student,
            course_id: self.course_id@,
            course_title: self.course_title@,
            enrollment_reference: self.enrollment_reference@,
            instructor: self.instructor,
            issued_by: self.issued_by,
            issued_at_ledger: self.issued_at_ledger,
            revoked: self.revoked,
            revoked_by: self.revoked_by,
            revocation_ledger: self.revocation_ledger,
            revocation_reason: opt_text(self.revocation_reason),
            expires_at_ledger: self.expires_at_ledger,
            instructor_signature: self.instructor_signature,
            revocation_deadline: self.revocation_deadline,
        }
    }
}

impl Certificate {
    /// A field-by-field copy.
    pub fn duplicate(&self) -> (r: Certificate)
        ensures
            r@ == self@,
    {
        Certificate {
            id: copy_bytes(&self.id),
            student: self.student,
            course_id: copy_bytes(&self.course_id),
            course_title: copy_bytes(&self.course_title),
            enrollment_reference: copy_bytes(&self.enrollment_reference),
            instructor: self.instructor,
            issued_by: self.issued_by,
            issued_at_ledger: self.issued_at_ledger,
            revoked: self.revoked,
            revoked_by: self.revoked_by,
            revocation_ledger: self.revocation_ledger,
            revocation_reason: copy_opt_text(&self.revocation_reason),
            expires_at_ledger: self.expires_at_ledger,
            instructor_signature: self.instructor_signature,
            revocation_deadline: self.revocation_deadline,
        }
    }
}

/// A refund request record.
pub struct RefundRequest {
    pub student: Addr,
    pub course_id: Vec<u8>,
    pub requested_at_ledger: u32,
    pub status: RefundStatus,
}

pub struct RefundRequestView {
    pub student: Addr,
    pub course_id: Seq<u8>,
    pub requested_at_ledger: u32,
    pub status: RefundStatus,
}

impl View for RefundRequest {
    type V = RefundRequestView;

    open spec fn view(&self) -> RefundRequestView {
        RefundRequestView {
            student: self.student,
            course_id: self.course_id@,
            requested_at_ledger: self.requested_at_ledger,
            status: self.status,
        }
    }
}

impl RefundRequest {
    /// A field-by-field copy.
    pub fn duplicate(&self) -> (r: RefundRequest)
        ensures
            r@ == self@,
    {
        RefundRequest {
            student: self.student,
            course_id: copy_bytes(&self.course_id),
            requested_at_ledger: self.requested_at_ledger,
            status: self.status,
        }
    }
}

/// An ordered list of byte strings (course ids, certificate ids).
pub struct TextList {
    pub items: Vec<Vec<u8>>,
}

impl View for TextList {
    type V = Seq<Seq<u8>>;

    open spec fn view(&self) -> Seq<Seq<u8>> {
        texts(self.items@)
    }
}

/// An ordered list of accounts.
pub struct AddrList {
    pub items: Vec<Addr>,
}

impl View for AddrList {
    type V = Seq<Addr>;

    open spec fn view(&self) -> Seq<Addr> {
        self.items@
    }
}

/// An ordered list of enrollment records.
pub struct EnrollmentList {
    pub items: Vec<Enrollment>,
}

impl View for EnrollmentList {
    type V = Seq<EnrollmentView>;

    open spec fn view(&self) -> Seq<EnrollmentView> {
        self.items@.map_values(|e: Enrollment| e@)
    }
}

/// The (student, course id) pair an enrollment reference points to.
pub struct EnrollmentLocator {
    pub student: Addr,
    pub course_id: Vec<u8>,
}

impl View for EnrollmentLocator {
    type V = (Addr, Seq<u8>);

    open spec fn view(&self) -> (Addr, Seq<u8>) {
        (self.student, self.course_id@)
    }
}

impl View for FeeConfig {
    type V = FeeConfig;

    open spec fn view(&self) -> FeeConfig {
        *self
    }
}

impl View for InstructorStats {
    type V = InstructorStats;

    open spec fn view(&self) -> InstructorStats {
        *self
    }
}

impl Dup for FeeConfig {
    fn dup(&self) -> (r: Self) {
        *self
    }
}

impl Dup for InstructorStats {
    fn dup(&self) -> (r: Self) {
        *self
    }
}

impl Dup for Course {
    fn dup(&self) -> (r: Self) {
        self.duplicate()
    }
}

impl Dup for Enrollment {
    fn dup(&self) -> (r: Self) {
        self.duplicate()
    }
}

impl Dup for Certificate {
    fn dup(&self) -> (r: Self) {
        self.duplicate()
    }
}

impl Dup for RefundRequest {
    fn dup(&self) -> (r: Self) {
        self.duplicate()
    }
}

impl Dup for EnrollmentLocator {
    fn dup(&self) -> (r: Self) {
        EnrollmentLocator { student: self.student, course_id: copy_bytes(&self.course_id) }
    }
}

impl Dup for TextList {
    fn dup(&self) -> (r: Self) {
        TextList { items: copy_texts(&self.items) }
    }
}

impl Dup for AddrList {
    fn dup(&self) -> (r: Self) {
        let mut items: Vec<Addr> = Vec::new();
        let mut i: usize = 0;
        while i < self.items.len()
            invariant
                i <= self.items.len(),
                items@ == self.items@.subrange(0, i as int),
            decreases self.items.len() - i,
        {
            items.push(self.items[i]);
            i = i + 1;
            assert(items@ =~= self.items@.subrange(0, i as int));
        }
        assert(items@ =~= self.items@);
        AddrList { items }
    }
}

impl Dup for EnrollmentList {
    fn dup(&self) -> (r: Self) {
        let mut items: Vec<Enrollment> = Vec::new();
        let mut i: usize = 0;
        while i < self.items.len()
            invariant
                i <= self.items.len(),
                items.len() == i,
                forall|j: int| 0 <= j < i ==> #[trigger] items@[j]@ == self.items@[j]@,
            decreases self.items.len() - i,
        {
            items.push(self.items[i].duplicate());
            i = i + 1;
        }
        let r = EnrollmentList { items };
        assert(r@ =~= self@);
        r
    }
}

} // verus!
