//! The platform's persistent state, its mathematical view, and the access
//! checks shared by all operations.
use vstd::prelude::*;
use crate::model::{ArbitrationFeeConfig, AddrList, CourseStatus, Certificate, CertificateView, ContractError, Course, CourseView, Enrollment, EnrollmentList, EnrollmentLocator, EnrollmentView, FeeConfig, InstructorStats, PendingUpgrade, RefundRequest, RefundRequestView, RiskFeeConfig, TextList, TreasuryUpdate};
use crate::table::{Addr, Dup, Key, KeyView, Table, akey, atkey, tkey};

verus! {

/// Default platform fee percentage when none is stored.
pub const DEFAULT_FEE_PCT: u32 = 20;

/// Default per-instructor course registration limit.
pub const DEFAULT_MAX_COURSES: u32 = 50;

/// Default refund window, in ledgers.
pub const DEFAULT_REFUND_WINDOW: u32 = 1000;

/// Default time-lock of a code upgrade, in ledgers (about one day).
pub const DEFAULT_UPGRADE_TIMELOCK_LEDGERS: u32 = 17280;

/// Default challenge period of a certificate revocation, in ledgers.
pub const DEFAULT_REVOCATION_CHALLENGE_PERIOD: u32 = 17280;

/// Cooldown after archiving before a course id may be registered again.
pub const ARCHIVE_COOLDOWN_LEDGERS: u32 = 172800;

/// Smallest non-zero course price, in stroops (0.01 USDC).
pub const MIN_COURSE_PRICE_STROOPS: i128 = 100000;

/// Largest course price, in stroops (100,000 USDC).
pub const MAX_COURSE_PRICE_STROOPS: i128 = 1000000000000;

/// Decimal precision every payment token must have.
pub const EXPECTED_TOKEN_DECIMALS: u32 = 7;

/// Delay before a treasury change takes effect, in ledgers.
pub const TREASURY_UPDATE_DELAY: u32 = 100;

/// The platform's state as mathematical values.
pub struct State {
    pub admin: Option<Addr>,
    pub secondary_admin: Option<Addr>,
    pub admin_expires_at: Option<u32>,
    pub treasury: Option<Addr>,
    pub pending_treasury: Option<TreasuryUpdate>,
    pub pending_admin: Option<Addr>,
    pub pending_secondary_admin: Option<Addr>,
    pub platform_paused: bool,
    pub default_fee: u32,
    pub max_courses: u32,
    pub refund_window: u32,
    pub challenge_period: u32,
    pub init_ledger: Option<u32>,
    pub min_review_delay: u32,
    pub default_min_completion: u32,
    pub platform_cap: Option<u32>,
    pub total_active: u32,
    pub pending_upgrade: Option<PendingUpgrade>,
    pub upgrade_timelock: u32,
    pub ref_counter: u32,
    pub arbitration_fee: ArbitrationFeeConfig,
    pub risk_config: Option<RiskFeeConfig>,
    pub risk_enabled: bool,
    pub approved_tokens: Map<KeyView, ()>,
    pub frozen_instructors: Map<KeyView, ()>,
    pub blocked_students: Map<KeyView, ()>,
    pub approvers: Map<KeyView, ()>,
    pub fee_configs: Map<KeyView, FeeConfig>,
    pub course_counts: Map<KeyView, u32>,
    pub pending_counts: Map<KeyView, u32>,
    pub instructor_courses: Map<KeyView, Seq<Seq<u8>>>,
    pub total_earnings: Map<KeyView, i128>,
    pub stats: Map<KeyView, InstructorStats>,
    pub earnings: Map<KeyView, i128>,
    pub courses: Map<KeyView, CourseView>,
    pub instructor_refs: Map<KeyView, Addr>,
    pub archived: Map<KeyView, CourseView>,
    pub waitlists: Map<KeyView, Seq<Addr>>,
    pub course_certificates: Map<KeyView, Seq<Seq<u8>>>,
    pub certificates: Map<KeyView, CertificateView>,
    pub enrollments: Map<KeyView, EnrollmentView>,
    pub histories: Map<KeyView, Seq<EnrollmentView>>,
    pub refund_requests: Map<KeyView, RefundRequestView>,
    pub enrollments_by_ref: Map<KeyView, (Addr, Seq<u8>)>,
    pub course_list: Seq<Seq<u8>>,
    pub registry: Seq<Addr>,
}

/// The platform contract: everything it keeps on the ledger.
pub struct HamplardContract {
    pub admin: Option<Addr>,
    pub secondary_admin: Option<Addr>,
    pub admin_expires_at: Option<u32>,
    pub treasury: Option<Addr>,
    pub pending_treasury: Option<TreasuryUpdate>,
    pub pending_admin: Option<Addr>,
    pub pending_secondary_admin: Option<Addr>,
    pub platform_paused: bool,
    pub default_fee: u32,
    pub max_courses: u32,
    pub refund_window: u32,
    pub challenge_period: u32,
    pub init_ledger: Option<u32>,
    pub min_review_delay: u32,
    pub default_min_completion: u32,
    pub platform_cap: Option<u32>,
    pub total_active: u32,
    pub pending_upgrade: Option<PendingUpgrade>,
    pub upgrade_timelock: u32,
    pub ref_counter: u32,
    pub arbitration_fee: ArbitrationFeeConfig,
    pub risk_config: Option<RiskFeeConfig>,
    pub risk_enabled: bool,
    pub approved_tokens: Table<()>,
    pub frozen_instructors: Table<()>,
    pub blocked_students: Table<()>,
    pub approvers: Table<()>,
    pub fee_configs: Table<FeeConfig>,
    pub course_counts: Table<u32>,
    pub pending_counts: Table<u32>,
    pub instructor_courses: Table<TextList>,
    pub total_earnings: Table<i128>,
    pub stats: Table<InstructorStats>,
    pub earnings: Table<i128>,
    pub courses: Table<Course>,
    pub instructor_refs: Table<Addr>,
    pub archived: Table<Course>,
    pub waitlists: Table<AddrList>,
    pub course_certificates: Table<TextList>,
    pub certificates: Table<Certificate>,
    pub enrollments: Table<Enrollment>,
    pub histories: Table<EnrollmentList>,
    pub refund_requests: Table<RefundRequest>,
    pub enrollments_by_ref: Table<EnrollmentLocator>,
    pub course_list: TextList,
    pub registry: AddrList,
}

impl View for HamplardContract {
    type V = State;

    open spec fn view(&self) -> State {
        State {
            admin: self.admin,
            secondary_admin: self.secondary_admin,
            admin_expires_at: self.admin_expires_at,
            treasury: self.treasury,
            pending_treasury: self.pending_treasury,
            pending_admin: self.pending_admin,
            pending_secondary_admin: self.pending_secondary_admin,
            platform_paused: self.platform_paused,
            default_fee: self.default_fee,
            max_courses: self.max_courses,
            refund_window: self.refund_window,
            challenge_period: self.challenge_period,
            init_ledger: self.init_ledger,
            min_review_delay: self.min_review_delay,
            default_min_completion: self.default_min_completion,
            platform_cap: self.platform_cap,
            total_active: self.total_active,
            pending_upgrade: self.pending_upgrade,
            upgrade_timelock: self.upgrade_timelock,
            ref_counter: self.ref_counter,
            arbitration_fee: self.arbitration_fee,
            risk_config: self.risk_config,
            risk_enabled: self.risk_enabled,
            approved_tokens: self.approved_tokens@,
            frozen_instructors: self.frozen_instructors@,
            blocked_students: self.blocked_students@,
            approvers: self.approvers@,
            fee_configs: self.fee_configs@,
            course_counts: self.course_counts@,
            pending_counts: self.pending_counts@,
            instructor_courses: self.instructor_courses@,
            total_earnings: self.total_earnings@,
            stats: self.stats@,
            earnings: self.earnings@,
            courses: self.courses@,
            instructor_refs: self.instructor_refs@,
            archived: self.archived@,
            waitlists: self.waitlists@,
            course_certificates: self.course_certificates@,
            certificates: self.certificates@,
            enrollments: self.enrollments@,
            histories: self.histories@,
            refund_requests: self.refund_requests@,
            enrollments_by_ref: self.enrollments_by_ref@,
            course_list: self.course_list@,
            registry: self.registry@,
        }
    }
}

/// The state of a freshly deployed, uninitialized contract: no admins,
/// treasury or pending changes, the platform running, the default
/// parameters, every counter at zero except the enrollment reference
/// counter at one, and every record collection empty.
pub open spec fn fresh_state() -> State {
    State {
        admin: None,
        secondary_admin: None,
        admin_expires_at: None,
        treasury: None,
        pending_treasury: None,
        pending_admin: None,
        pending_secondary_admin: None,
        platform_paused: false,
        default_fee: DEFAULT_FEE_PCT,
        max_courses: DEFAULT_MAX_COURSES,
        refund_window: DEFAULT_REFUND_WINDOW,
        challenge_period: DEFAULT_REVOCATION_CHALLENGE_PERIOD,
        init_ledger: None,
        min_review_delay: 0,
        default_min_completion: 0,
        platform_cap: None,
        total_active: 0,
        pending_upgrade: None,
        upgrade_timelock: DEFAULT_UPGRADE_TIMELOCK_LEDGERS,
        ref_counter: 1,
        arbitration_fee: ArbitrationFeeConfig { fee_per_case: 0 },
        risk_config: None,
        risk_enabled: false,
        approved_tokens: Map::empty(),
        frozen_instructors: Map::empty(),
        blocked_students: Map::empty(),
        approvers: Map::empty(),
        fee_configs: Map::empty(),
        course_counts: Map::empty(),
        pending_counts: Map::empty(),
        instructor_courses: Map::empty(),
        total_earnings: Map::empty(),
        stats: Map::empty(),
        earnings: Map::empty(),
        courses: Map::empty(),
        instructor_refs: Map::empty(),
        archived: Map::empty(),
        waitlists: Map::empty(),
        course_certificates: Map::empty(),
        certificates: Map::empty(),
        enrollments: Map::empty(),
        histories: Map::empty(),
        refund_requests: Map::empty(),
        enrollments_by_ref: Map::empty(),
        course_list: Seq::empty(),
        registry: Seq::empty(),
    }
}

/// Every course record by id, live or archived: the live record where
/// both exist (as `lookup_course` reads them).
pub open spec fn catalog(s: State) -> Map<KeyView, CourseView> {
    s.archived.union_prefer_right(s.courses)
}

/// The courses of an instructor in a course map.
pub open spec fn owned(m: Map<KeyView, CourseView>, a: Addr) -> Set<KeyView> {
    m.dom().filter(|k: KeyView| m[k].instructor == a)
}

/// The Pending courses of an instructor in a course map.
pub open spec fn owned_pending(m: Map<KeyView, CourseView>, a: Addr) -> Set<KeyView> {
    m.dom().filter(|k: KeyView| m[k].instructor == a && m[k].status == CourseStatus::Pending)
}

/// Every instructor's course counter covers the instructor's courses,
/// live or archived, and the pending counter the Pending ones. (A
/// rejected course keeps its pending count, and an archived record whose
/// id was registered again keeps its course count, so the counters may
/// exceed these sets.)
pub open spec fn counts_cover(s: State) -> bool {
    &&& catalog(s).dom().finite()
    &&& forall|a: Addr| owned(catalog(s), a).len() <= #[trigger] count_of(s.course_counts, a)
    &&& forall|a: Addr| owned_pending(catalog(s), a).len() <= #[trigger] count_of(s.pending_counts, a)
}

/// Courses of `m2` are courses of `m1` with the same instructor, and are
/// Pending only where they were Pending in `m1`.
pub open spec fn owners_kept(m1: Map<KeyView, CourseView>, m2: Map<KeyView, CourseView>) -> bool {
    forall|k: KeyView| #[trigger]
        m2.contains_key(k) ==> m1.contains_key(k) && m2[k].instructor == m1[k].instructor && (m2[k].status
            == CourseStatus::Pending ==> m1[k].status == CourseStatus::Pending)
}

/// Changing course records without adding courses, moving them between
/// instructors or making them Pending keeps the counters covering.
pub proof fn lemma_cover_kept(s1: State, s2: State)
    requires
        counts_cover(s1),
        owners_kept(catalog(s1), catalog(s2)),
        s2.course_counts == s1.course_counts,
        s2.pending_counts == s1.pending_counts,
    ensures
        counts_cover(s2),
{
    let (m1, m2) = (catalog(s1), catalog(s2));
    assert(m2.dom().subset_of(m1.dom()));
    vstd::set_lib::lemma_len_subset(m2.dom(), m1.dom());
    assert forall|a: Addr| owned(m2, a).len() <= #[trigger] count_of(s2.course_counts, a) by {
        assert(owned(m2, a).subset_of(owned(m1, a)));
        m1.dom().lemma_len_filter(|k: KeyView| m1[k].instructor == a);
        vstd::set_lib::lemma_len_subset(owned(m2, a), owned(m1, a));
        assert(owned(m1, a).len() <= count_of(s1.course_counts, a));
    }
    assert forall|a: Addr| owned_pending(m2, a).len() <= #[trigger] count_of(s2.pending_counts, a) by {
        assert(owned_pending(m2, a).subset_of(owned_pending(m1, a)));
        m1.dom().lemma_len_filter(
            |k: KeyView| m1[k].instructor == a && m1[k].status == CourseStatus::Pending,
        );
        vstd::set_lib::lemma_len_subset(owned_pending(m2, a), owned_pending(m1, a));
        assert(owned_pending(m1, a).len() <= count_of(s1.pending_counts, a));
    }
}

/// Replacing the record of an existing course with one of the same
/// instructor that is Pending only if the old one was keeps the counters
/// covering.
pub proof fn lemma_cover_update(s1: State, s2: State, id: Seq<u8>, c: CourseView)
    requires
        counts_cover(s1),
        lookup_course(s1, id) matches Some(c0) && c0.instructor == c.instructor && (c.status
            == CourseStatus::Pending ==> c0.status == CourseStatus::Pending),
        s2.courses == s1.courses.insert(tkey(id), c),
        s2.archived == s1.archived,
        s2.course_counts == s1.course_counts,
        s2.pending_counts == s1.pending_counts,
    ensures
        counts_cover(s2),
{
    assert(catalog(s2) =~= catalog(s1).insert(tkey(id), c));
    lemma_cover_kept(s1, s2);
}

/// Leaving courses, archive and counters as they are keeps the counters
/// covering.
pub proof fn lemma_cover_same(s1: State, s2: State)
    requires
        counts_cover(s1),
        s2.courses == s1.courses,
        s2.archived == s1.archived,
        s2.course_counts == s1.course_counts,
        s2.pending_counts == s1.pending_counts,
    ensures
        counts_cover(s2),
{
    assert(catalog(s2) == catalog(s1));
}

/// Every unrevoked certificate carries no revocation record.
pub open spec fn revocations_recorded(s: State) -> bool {
    forall|k: KeyView| #[trigger]
        s.certificates.contains_key(k) && !s.certificates[k].revoked ==> {
            let c = s.certificates[k];
            &&& c.revoked_by is None
            &&& c.revocation_ledger is None
            &&& c.revocation_reason is None
            &&& c.revocation_deadline is None
        }
}

/// Whether an operation's result and the state after it are what its
/// specification gives: on success the specified state, on failure the
/// specified error with the state untouched.
pub open spec fn committed<T>(
    r: Result<T, ContractError>,
    spec: Result<State, ContractError>,
    pre: State,
    post: State,
) -> bool {
    match spec {
        Ok(s) => r is Ok && post == s,
        Err(e) => r matches Err(x) && x == e && post == pre,
    }
}

pub open spec fn in_set(m: Map<KeyView, ()>, a: Addr) -> bool {
    m.contains_key(akey(a))
}

pub open spec fn is_admin(s: State, a: Addr) -> bool {
    s.admin == Some(a)
}

pub open spec fn admin_expired(s: State, now: u32) -> bool {
    s.admin_expires_at matches Some(e) && now >= e
}

/// The refusal, if any, of a single-admin operation.
pub open spec fn admin_check(s: State, now: u32, caller: Addr) -> Option<ContractError> {
    if !is_admin(s, caller) {
        Some(ContractError::NotAdmin)
    } else if admin_expired(s, now) {
        Some(ContractError::AdminExpired)
    } else {
        None
    }
}

/// The refusal, if any, of an operation open to the admin and to approvers.
/// Approvers do not expire.
pub open spec fn admin_or_approver_check(s: State, now: u32, caller: Addr) -> Option<ContractError> {
    if !is_admin(s, caller) && !in_set(s.approvers, caller) {
        Some(ContractError::NotAdminOrApprover)
    } else if is_admin(s, caller) && admin_expired(s, now) {
        Some(ContractError::AdminExpired)
    } else {
        None
    }
}

/// The refusal, if any, of an operation that needs both admins.
pub open spec fn multi_admin_check(s: State, now: u32, a1: Addr, a2: Addr) -> Option<ContractError> {
    if s.admin is None || s.secondary_admin is None {
        Some(ContractError::NotInitialized)
    } else if !((Some(a1) == s.admin && Some(a2) == s.secondary_admin) || (Some(a1)
        == s.secondary_admin && Some(a2) == s.admin)) {
        Some(ContractError::NotMultiAdmin)
    } else if admin_expired(s, now) {
        Some(ContractError::AdminExpired)
    } else {
        None
    }
}

/// A course by id: the live record, else the archived one.
pub open spec fn lookup_course(s: State, id: Seq<u8>) -> Option<CourseView> {
    if s.courses.contains_key(tkey(id)) {
        Some(s.courses[tkey(id)])
    } else if s.archived.contains_key(tkey(id)) {
        Some(s.archived[tkey(id)])
    } else {
        None
    }
}

/// A per-account counter, zero when absent.
pub open spec fn count_of(m: Map<KeyView, u32>, a: Addr) -> u32 {
    if m.contains_key(akey(a)) {
        m[akey(a)]
    } else {
        0
    }
}

/// A per-key balance, zero when absent.
pub open spec fn balance_of(m: Map<KeyView, i128>, k: KeyView) -> i128 {
    if m.contains_key(k) {
        m[k]
    } else {
        0
    }
}

/// An instructor's stats, zero when absent.
pub open spec fn stats_of(s: State, a: Addr) -> InstructorStats {
    if s.stats.contains_key(akey(a)) {
        s.stats[akey(a)]
    } else {
        InstructorStats { total_students: 0, total_completions: 0, total_certificates: 0 }
    }
}

/// A per-key list of ids, empty when absent.
pub open spec fn texts_of(m: Map<KeyView, Seq<Seq<u8>>>, k: KeyView) -> Seq<Seq<u8>> {
    if m.contains_key(k) {
        m[k]
    } else {
        Seq::empty()
    }
}

impl HamplardContract {
    /// The state's internal consistency.
    pub open spec fn wf(&self) -> bool {
        &&& self.default_fee <= 100
        &&& self.approved_tokens.wf()
        &&& self.frozen_instructors.wf()
        &&& self.blocked_students.wf()
        &&& self.approvers.wf()
        &&& self.fee_configs.wf()
        &&& self.course_counts.wf()
        &&& self.pending_counts.wf()
        &&& self.instructor_courses.wf()
        &&& self.total_earnings.wf()
        &&& self.stats.wf()
        &&& self.earnings.wf()
        &&& self.courses.wf()
        &&& self.instructor_refs.wf()
        &&& self.archived.wf()
        &&& self.waitlists.wf()
        &&& self.course_certificates.wf()
        &&& self.certificates.wf()
        &&& self.enrollments.wf()
        &&& self.histories.wf()
        &&& self.refund_requests.wf()
        &&& self.enrollments_by_ref.wf()
        &&& counts_cover(self@)
        &&& revocations_recorded(self@)
        &&& self.registry@.no_duplicates()
        &&& self.admin is None ==> self.admin_expires_at is None
        &&& forall|k: KeyView| #[trigger]
            self.fee_configs@.contains_key(k) ==> self.fee_configs@[k].fee_bps <= 10000
        &&& forall|k: KeyView| #[trigger]
            self.enrollments@.contains_key(k) ==> k == atkey(
                self.enrollments@[k].student,
                self.enrollments@[k].course_id,
            )
    }

    /// A freshly deployed, uninitialized contract.
    pub fn new() -> (r: Self)
        ensures
            r.wf(),
            r@ == fresh_state(),
    {
        let r = HamplardContract {
            admin: None,
            secondary_admin: None,
            admin_expires_at: None,
            treasury: None,
            pending_treasury: None,
            pending_admin: None,
            pending_secondary_admin: None,
            platform_paused: false,
            default_fee: DEFAULT_FEE_PCT,
            max_courses: DEFAULT_MAX_COURSES,
            refund_window: DEFAULT_REFUND_WINDOW,
            challenge_period: DEFAULT_REVOCATION_CHALLENGE_PERIOD,
            init_ledger: None,
            min_review_delay: 0,
            default_min_completion: 0,
            platform_cap: None,
            total_active: 0,
            pending_upgrade: None,
            upgrade_timelock: DEFAULT_UPGRADE_TIMELOCK_LEDGERS,
            ref_counter: 1,
            arbitration_fee: ArbitrationFeeConfig { fee_per_case: 0 },
            risk_config: None,
            risk_enabled: false,
            approved_tokens: Table::new(),
            frozen_instructors: Table::new(),
            blocked_students: Table::new(),
            approvers: Table::new(),
            fee_configs: Table::new(),
            course_counts: Table::new(),
            pending_counts: Table::new(),
            instructor_courses: Table::new(),
            total_earnings: Table::new(),
            stats: Table::new(),
            earnings: Table::new(),
            courses: Table::new(),
            instructor_refs: Table::new(),
            archived: Table::new(),
            waitlists: Table::new(),
            course_certificates: Table::new(),
            certificates: Table::new(),
            enrollments: Table::new(),
            histories: Table::new(),
            refund_requests: Table::new(),
            enrollments_by_ref: Table::new(),
            course_list: TextList { items: Vec::new() },
            registry: AddrList { items: Vec::new() },
        };
        assert(r.course_list@ =~= Seq::<Seq<u8>>::empty());
        assert(r@ =~= fresh_state());
        assert(catalog(r@) =~= Map::<KeyView, CourseView>::empty());
        assert forall|a: Addr| owned(catalog(r@), a).len() <= #[trigger] count_of(r@.course_counts, a) by {
            assert(owned(catalog(r@), a) =~= Set::<KeyView>::empty());
        }
        assert forall|a: Addr| owned_pending(catalog(r@), a).len() <= #[trigger] count_of(
            r@.pending_counts,
            a,
        ) by {
            assert(owned_pending(catalog(r@), a) =~= Set::<KeyView>::empty());
        }
        r
    }

    /// A copy of the whole state.
    pub fn snapshot(&self) -> (r: Self)
        requires
            self.wf(),
        ensures
            r.wf(),
            r@ == self@,
    {
        HamplardContract {
            admin: self.admin,
            secondary_admin: self.secondary_admin,
            admin_expires_at: self.admin_expires_at,
            treasury: self.treasury,
            pending_treasury: self.pending_treasury,
            pending_admin: self.pending_admin,
            pending_secondary_admin: self.pending_secondary_admin,
            platform_paused: self.platform_paused,
            default_fee: self.default_fee,
            max_courses: self.max_courses,
            refund_window: self.refund_window,
            challenge_period: self.challenge_period,
            init_ledger: self.init_ledger,
            min_review_delay: self.min_review_delay,
            default_min_completion: self.default_min_completion,
            platform_cap: self.platform_cap,
            total_active: self.total_active,
            pending_upgrade: self.pending_upgrade,
            upgrade_timelock: self.upgrade_timelock,
            ref_counter: self.ref_counter,
            arbitration_fee: self.arbitration_fee,
            risk_config: self.risk_config,
            risk_enabled: self.risk_enabled,
            approved_tokens: self.approved_tokens.dup_table(),
            frozen_instructors: self.frozen_instructors.dup_table(),
            blocked_students: self.blocked_students.dup_table(),
            approvers: self.approvers.dup_table(),
            fee_configs: self.fee_configs.dup_table(),
            course_counts: self.course_counts.dup_table(),
            pending_counts: self.pending_counts.dup_table(),
            instructor_courses: self.instructor_courses.dup_table(),
            total_earnings: self.total_earnings.dup_table(),
            stats: self.stats.dup_table(),
            earnings: self.earnings.dup_table(),
            courses: self.courses.dup_table(),
            instructor_refs: self.instructor_refs.dup_table(),
            archived: self.archived.dup_table(),
            waitlists: self.waitlists.dup_table(),
            course_certificates: self.course_certificates.dup_table(),
            certificates: self.certificates.dup_table(),
            enrollments: self.enrollments.dup_table(),
            histories: self.histories.dup_table(),
            refund_requests: self.refund_requests.dup_table(),
            enrollments_by_ref: self.enrollments_by_ref.dup_table(),
            course_list: self.course_list.dup(),
            registry: self.registry.dup(),
        }
    }

    pub fn is_admin_addr(&self, a: Addr) -> (r: bool)
        ensures
            r == is_admin(self@, a),
    {
        match self.admin {
            Some(x) => x == a,
            None => false,
        }
    }

    fn admin_has_expired(&self, now: u32) -> (r: bool)
        ensures
            r == admin_expired(self@, now),
    {
        match self.admin_expires_at {
            Some(e) => now >= e,
            None => false,
        }
    }

    pub fn check_admin(&self, now: u32, caller: Addr) -> (r: Option<ContractError>)
        ensures
            r == admin_check(self@, now, caller),
    {
        if !self.is_admin_addr(caller) {
            Some(ContractError::NotAdmin)
        } else if self.admin_has_expired(now) {
            Some(ContractError::AdminExpired)
        } else {
            None
        }
    }

    pub fn in_addr_set(t: &Table<()>, a: Addr) -> (r: bool)
        requires
            t.wf(),
        ensures
            r == in_set(t@, a),
    {
        t.contains(&Key::of_addr(a))
    }

    pub fn check_admin_or_approver(&self, now: u32, caller: Addr) -> (r: Option<ContractError>)
        requires
            self.wf(),
        ensures
            r == admin_or_approver_check(self@, now, caller),
    {
        let adm = self.is_admin_addr(caller);
        if !adm && !Self::in_addr_set(&self.approvers, caller) {
            Some(ContractError::NotAdminOrApprover)
        } else if adm && self.admin_has_expired(now) {
            Some(ContractError::AdminExpired)
        } else {
            None
        }
    }

    pub fn check_multi_admin(&self, now: u32, a1: Addr, a2: Addr) -> (r: Option<ContractError>)
        ensures
            r == multi_admin_check(self@, now, a1, a2),
    {
        match (self.admin, self.secondary_admin) {
            (Some(admin), Some(sec)) => {
                if !((a1 == admin && a2 == sec) || (a1 == sec && a2 == admin)) {
                    Some(ContractError::NotMultiAdmin)
                } else if self.admin_has_expired(now) {
                    Some(ContractError::AdminExpired)
                } else {
                    None
                }
            },
            _ => Some(ContractError::NotInitialized),
        }
    }

    /// A course by id: the live record, else the archived one.
    pub fn find_course(&self, id: &Vec<u8>) -> (r: Option<&Course>)
        requires
            self.wf(),
        ensures
            match r {
                Some(c) => lookup_course(self@, id@) == Some(c@),
                None => lookup_course(self@, id@) is None,
            },
    {
        let k = Key::of_text(id);
        match self.courses.get(&k) {
            Some(c) => Some(c),
            None => self.archived.get(&k),
        }
    }

    pub fn counter(t: &Table<u32>, a: Addr) -> (r: u32)
        requires
            t.wf(),
        ensures
            r == count_of(t@, a),
    {
        match t.get(&Key::of_addr(a)) {
            Some(v) => *v,
            None => 0,
        }
    }

    pub fn balance(t: &Table<i128>, k: &Key) -> (r: i128)
        requires
            t.wf(),
        ensures
            r == balance_of(t@, k@),
    {
        match t.get(k) {
            Some(v) => *v,
            None => 0,
        }
    }

    /// Initialises the contract: records both admins, the treasury and the
    /// platform parameters. Called once after deployment.
    pub fn init(
        &mut self,
        now: u32,
        contract: Addr,
        admin: Addr,
        secondary_admin: Addr,
        treasury: Addr,
        default_fee_pct: u32,
        max_courses_per_instructor: u32,
        refund_window_ledgers: u32,
        revocation_challenge_period: u32,
    ) -> (r: Result<(), ContractError>)
        requires
            old(self).wf(),
        ensures
            final(self).wf(),
            committed(
                r,
                spec_init(
                    old(self)@,
                    now,
                    contract,
                    admin,
                    secondary_admin,
                    treasury,
                    default_fee_pct,
                    max_courses_per_instructor,
                    refund_window_ledgers,
                    revocation_challenge_period,
                ),
                old(self)@,
                final(self)@,
            ),
    {
        if self.admin.is_some() {
            return Err(ContractError::AlreadyInitialized);
        }
        if default_fee_pct > 100 {
            return Err(ContractError::FeeTooHigh);
        }
        if treasury == contract {
            return Err(ContractError::TreasuryIsContract);
        }
        if admin == treasury {
            return Err(ContractError::AdminIsTreasury);
        }
        if secondary_admin == treasury {
            return Err(ContractError::SecondaryAdminIsTreasury);
        }
        if admin == secondary_admin {
            return Err(ContractError::AdminsNotDistinct);
        }
        self.admin = Some(admin);
        self.secondary_admin = Some(secondary_admin);
        self.treasury = Some(treasury);
        self.platform_paused = false;
        self.default_fee = default_fee_pct;
        self.max_courses = max_courses_per_instructor;
        self.refund_window = refund_window_ledgers;
        self.challenge_period = revocation_challenge_period;
        self.init_ledger = Some(now);
        Ok(())
    }
}

/// Initialisation: refused once an admin is recorded, or on inconsistent
/// parameters; otherwise records the admins, treasury and parameters.
pub open spec fn spec_init(
    s: State,
    now: u32,
    contract: Addr,
    admin: Addr,
    secondary_admin: Addr,
    treasury: Addr,
    default_fee_pct: u32,
    max_courses_per_instructor: u32,
    refund_window_ledgers: u32,
    revocation_challenge_period: u32,
) -> Result<State, ContractError> {
    if s.admin is Some {
        Err(ContractError::AlreadyInitialized)
    } else if default_fee_pct > 100 {
        Err(ContractError::FeeTooHigh)
    } else if treasury == contract {
        Err(ContractError::TreasuryIsContract)
    } else if admin == treasury {
        Err(ContractError::AdminIsTreasury)
    } else if secondary_admin == treasury {
        Err(ContractError::SecondaryAdminIsTreasury)
    } else if admin == secondary_admin {
        Err(ContractError::AdminsNotDistinct)
    } else {
        Ok(
            State {
                admin: Some(admin),
                secondary_admin: Some(secondary_admin),
                treasury: Some(treasury),
                platform_paused: false,
                default_fee: default_fee_pct,
                max_courses: max_courses_per_instructor,
                refund_window: refund_window_ledgers,
                challenge_period: revocation_challenge_period,
                init_ledger: Some(now),
                ..s
            },
        )
    }
}

} // verus!
