//! Platform administration: the pause switch, the two-step admin handover,
//! the delayed treasury change, access lists (approvers, tokens, frozen
//! instructors, blocked students), platform parameters and the time-locked
//! code upgrade.
use vstd::prelude::*;
use crate::model::{ContractError, CourseStatus, CourseView, PendingUpgrade, TextList, Transfer, TreasuryUpdate};
use crate::state::{lemma_cover_update, HamplardContract, State, TREASURY_UPDATE_DELAY, admin_check, committed, in_set, multi_admin_check, texts_of};
use crate::table::{Addr, Key, KeyView, akey, tkey};

verus! {

/// An operation's outcome from its access check and its effect: the
/// refusal if there is one, else the new state.
pub open spec fn guarded(check: Option<ContractError>, next: State) -> Result<State, ContractError> {
    match check {
        Some(e) => Err(e),
        None => Ok(next),
    }
}

/// Proposing a new admin pair (both admins); the nominees must accept.
pub open spec fn spec_transfer_admin(
    s: State,
    now: u32,
    admin1: Addr,
    admin2: Addr,
    new_admin: Addr,
    new_secondary_admin: Addr,
) -> Result<State, ContractError> {
    if multi_admin_check(s, now, admin1, admin2) is Some {
        Err(multi_admin_check(s, now, admin1, admin2)->0)
    } else if Some(new_admin) == s.admin && Some(new_secondary_admin) == s.secondary_admin {
        Err(ContractError::AdminsIdentical)
    } else if new_admin == new_secondary_admin {
        Err(ContractError::AdminsNotDistinct)
    } else {
        Ok(
            State {
                pending_admin: Some(new_admin),
                pending_secondary_admin: Some(new_secondary_admin),
                ..s
            },
        )
    }
}

/// The nominated pair accepts the handover; the admin expiry is cleared.
pub open spec fn spec_accept_admin(s: State, new_admin: Addr, new_secondary_admin: Addr) -> Result<
    State,
    ContractError,
> {
    if s.pending_admin is None {
        Err(ContractError::NoPendingAdmin)
    } else if s.pending_secondary_admin is None {
        Err(ContractError::NoPendingSecondaryAdmin)
    } else if s.pending_admin != Some(new_admin) || s.pending_secondary_admin != Some(
        new_secondary_admin,
    ) {
        Err(ContractError::NotPendingAdmins)
    } else if s.admin is None {
        Err(ContractError::NotInitialized)
    } else {
        Ok(
            State {
                admin: Some(new_admin),
                secondary_admin: Some(new_secondary_admin),
                pending_admin: None,
                pending_secondary_admin: None,
                admin_expires_at: None,
                ..s
            },
        )
    }
}

/// Scheduling a treasury change (both admins); it takes effect
/// `TREASURY_UPDATE_DELAY` ledgers later.
pub open spec fn spec_update_treasury(
    s: State,
    now: u32,
    contract: Addr,
    admin1: Addr,
    admin2: Addr,
    new_treasury: Addr,
) -> Result<State, ContractError> {
    if multi_admin_check(s, now, admin1, admin2) is Some {
        Err(multi_admin_check(s, now, admin1, admin2)->0)
    } else if new_treasury == contract {
        Err(ContractError::TreasuryIsContract)
    } else if Some(new_treasury) == s.admin {
        Err(ContractError::TreasuryIsAdmin)
    } else if Some(new_treasury) == s.secondary_admin {
        Err(ContractError::TreasuryIsSecondaryAdmin)
    } else if s.treasury is None {
        Err(ContractError::TreasuryNotSet)
    } else if s.treasury == Some(new_treasury) {
        Err(ContractError::TreasuryUnchanged)
    } else if now + TREASURY_UPDATE_DELAY > u32::MAX {
        Err(ContractError::Overflow)
    } else {
        Ok(
            State {
                pending_treasury: Some(
                    TreasuryUpdate {
                        address: new_treasury,
                        effective_ledger: (now + TREASURY_UPDATE_DELAY) as u32,
                    },
                ),
                ..s
            },
        )
    }
}

/// Pausing every Active course among `ids[i..]` that is a live record.
pub open spec fn pause_listed(
    courses: Map<KeyView, CourseView>,
    ids: Seq<Seq<u8>>,
    i: int,
    now: u32,
) -> Map<KeyView, CourseView>
    decreases ids.len() - i,
{
    if i < 0 || i >= ids.len() {
        courses
    } else {
        let k = tkey(ids[i]);
        let next = if courses.contains_key(k) && courses[k].status == CourseStatus::Active {
            courses.insert(
                k,
                CourseView { status: CourseStatus::Paused, last_updated_ledger: now, ..courses[k] },
            )
        } else {
            courses
        };
        pause_listed(next, ids, i + 1, now)
    }
}

/// Freezing an instructor (admin only): the instructor is flagged and all
/// of the instructor's Active courses are paused.
pub open spec fn spec_freeze_instructor(s: State, now: u32, admin: Addr, instructor: Addr) -> Result<
    State,
    ContractError,
> {
    guarded(
        admin_check(s, now, admin),
        State {
            frozen_instructors: s.frozen_instructors.insert(akey(instructor), ()),
            courses: pause_listed(
                s.courses,
                texts_of(s.instructor_courses, akey(instructor)),
                0,
                now,
            ),
            ..s
        },
    )
}

/// Adding an approver (admin only); the admin cannot be one, nor can an
/// address be added twice.
pub open spec fn spec_add_approver(s: State, now: u32, admin: Addr, approver: Addr) -> Result<
    State,
    ContractError,
> {
    if admin_check(s, now, admin) is Some {
        Err(admin_check(s, now, admin)->0)
    } else if approver == admin {
        Err(ContractError::ApproverIsAdmin)
    } else if in_set(s.approvers, approver) {
        Err(ContractError::AlreadyApprover)
    } else {
        Ok(State { approvers: s.approvers.insert(akey(approver), ()), ..s })
    }
}

/// Removing an approver (admin only).
pub open spec fn spec_remove_approver(s: State, now: u32, admin: Addr, approver: Addr) -> Result<
    State,
    ContractError,
> {
    if admin_check(s, now, admin) is Some {
        Err(admin_check(s, now, admin)->0)
    } else if !in_set(s.approvers, approver) {
        Err(ContractError::NotApprover)
    } else {
        Ok(State { approvers: s.approvers.remove(akey(approver)), ..s })
    }
}

/// Setting or clearing the admin expiry (both admins); a set expiry must
/// lie in the future.
pub open spec fn spec_set_admin_expiry(
    s: State,
    now: u32,
    admin1: Addr,
    admin2: Addr,
    expires_at: Option<u32>,
) -> Result<State, ContractError> {
    if multi_admin_check(s, now, admin1, admin2) is Some {
        Err(multi_admin_check(s, now, admin1, admin2)->0)
    } else if expires_at is Some && expires_at->0 <= now {
        Err(ContractError::ExpiryNotInFuture)
    } else {
        Ok(State { admin_expires_at: expires_at, ..s })
    }
}

/// Proposing a code upgrade (both admins); it can run once the time-lock
/// has passed. A new proposal replaces a pending one.
pub open spec fn spec_propose_upgrade(
    s: State,
    now: u32,
    admin1: Addr,
    admin2: Addr,
    new_wasm_hash: [u8; 32],
) -> Result<State, ContractError> {
    if multi_admin_check(s, now, admin1, admin2) is Some {
        Err(multi_admin_check(s, now, admin1, admin2)->0)
    } else if now + s.upgrade_timelock > u32::MAX {
        Err(ContractError::Overflow)
    } else {
        Ok(
            State {
                pending_upgrade: Some(
                    PendingUpgrade {
                        new_wasm_hash,
                        proposed_at_ledger: now,
                        effective_ledger: (now + s.upgrade_timelock) as u32,
                    },
                ),
                ..s
            },
        )
    }
}

/// Withdrawing the pending upgrade (both admins).
pub open spec fn spec_cancel_upgrade(s: State, now: u32, admin1: Addr, admin2: Addr) -> Result<
    State,
    ContractError,
> {
    if multi_admin_check(s, now, admin1, admin2) is Some {
        Err(multi_admin_check(s, now, admin1, admin2)->0)
    } else if s.pending_upgrade is None {
        Err(ContractError::NoPendingUpgrade)
    } else {
        Ok(State { pending_upgrade: None, ..s })
    }
}

/// Executing the pending upgrade (both admins) once its time-lock has
/// passed; the code to install is the proposed hash.
pub open spec fn spec_upgrade_contract(s: State, now: u32, admin1: Addr, admin2: Addr) -> Result<
    State,
    ContractError,
> {
    if multi_admin_check(s, now, admin1, admin2) is Some {
        Err(multi_admin_check(s, now, admin1, admin2)->0)
    } else if s.pending_upgrade is None {
        Err(ContractError::NoPendingUpgrade)
    } else if now < s.pending_upgrade->0.effective_ledger {
        Err(ContractError::UpgradeTimelockActive)
    } else {
        Ok(State { pending_upgrade: None, ..s })
    }
}

impl HamplardContract {
    /// Admin pauses all enrollments platform-wide.
    pub fn pause_platform(&mut self, now: u32, admin: Addr) -> (r: Result<(), ContractError>)
        requires
            old(self).wf(),
        ensures
            final(self).wf(),
            committed(
                r,
                guarded(admin_check(old(self)@, now, admin), State { platform_paused: true, ..old(self)@ }),
                old(self)@,
                final(self)@,
            ),
    {
        if let Some(e) = self.check_admin(now, admin) {
            return Err(e);
        }
        self.platform_paused = true;
        Ok(())
    }

    /// Admin lifts the platform-wide pause.
    pub fn unpause_platform(&mut self, now: u32, admin: Addr) -> (r: Result<(), ContractError>)
        requires
            old(self).wf(),
        ensures
            final(self).wf(),
            committed(
                r,
                guarded(admin_check(old(self)@, now, admin), State { platform_paused: false, ..old(self)@ }),
                old(self)@,
                final(self)@,
            ),
    {
        if let Some(e) = self.check_admin(now, admin) {
            return Err(e);
        }
        self.platform_paused = false;
        Ok(())
    }

    /// Admin moves tokens held by the contract; returns the transfer.
    pub fn withdraw_tokens(
        &self,
        now: u32,
        contract: Addr,
        admin: Addr,
        token: Addr,
        amount: i128,
        destination: Addr,
    ) -> (r: Result<Transfer, ContractError>)
        ensures
            match admin_check(self@, now, admin) {
                Some(e) => r == Err::<Transfer, ContractError>(e),
                None => r == Ok::<Transfer, ContractError>(
                    Transfer { token, from: contract, to: destination, amount },
                ),
            },
    {
        if let Some(e) = self.check_admin(now, admin) {
            return Err(e);
        }
        Ok(Transfer { token, from: contract, to: destination, amount })
    }

    /// Both admins nominate a new admin pair (first step of the handover).
    pub fn transfer_admin(
        &mut self,
        now: u32,
        admin1: Addr,
        admin2: Addr,
        new_admin: Addr,
        new_secondary_admin: Addr,
    ) -> (r: Result<(), ContractError>)
        requires
            old(self).wf(),
        ensures
            final(self).wf(),
            committed(
                r,
                spec_transfer_admin(old(self)@, now, admin1, admin2, new_admin, new_secondary_admin),
                old(self)@,
                final(self)@,
            ),
    {
        if let Some(e) = self.check_multi_admin(now, admin1, admin2) {
            return Err(e);
        }
        if self.admin == Some(new_admin) && self.secondary_admin == Some(new_secondary_admin) {
            return Err(ContractError::AdminsIdentical);
        }
        if new_admin == new_secondary_admin {
            return Err(ContractError::AdminsNotDistinct);
        }
        self.pending_admin = Some(new_admin);
        self.pending_secondary_admin = Some(new_secondary_admin);
        Ok(())
    }

    /// The nominated pair accepts the handover (second step).
    pub fn accept_admin(&mut self, new_admin: Addr, new_secondary_admin: Addr) -> (r: Result<
        (),
        ContractError,
    >)
        requires
            old(self).wf(),
        ensures
            final(self).wf(),
            committed(r, spec_accept_admin(old(self)@, new_admin, new_secondary_admin), old(self)@, final(self)@),
    {
        let pending = match self.pending_admin {
            None => {
                return Err(ContractError::NoPendingAdmin);
            },
            Some(p) => p,
        };
        let pending_sec = match self.pending_secondary_admin {
            None => {
                return Err(ContractError::NoPendingSecondaryAdmin);
            },
            Some(p) => p,
        };
        if pending != new_admin || pending_sec != new_secondary_admin {
            return Err(ContractError::NotPendingAdmins);
        }
        if self.admin.is_none() {
            return Err(ContractError::NotInitialized);
        }
        self.admin = Some(new_admin);
        self.secondary_admin = Some(new_secondary_admin);
        self.pending_admin = None;
        self.pending_secondary_admin = None;
        self.admin_expires_at = None;
        Ok(())
    }

    /// Both admins schedule a treasury change, effective
    /// `TREASURY_UPDATE_DELAY` ledgers from now.
    pub fn update_treasury(
        &mut self,
        now: u32,
        contract: Addr,
        admin1: Addr,
        admin2: Addr,
        new_treasury: Addr,
    ) -> (r: Result<(), ContractError>)
        requires
            old(self).wf(),
        ensures
            final(self).wf(),
            committed(
                r,
                spec_update_treasury(old(self)@, now, contract, admin1, admin2, new_treasury),
                old(self)@,
                final(self)@,
            ),
    {
        if let Some(e) = self.check_multi_admin(now, admin1, admin2) {
            return Err(e);
        }
        if new_treasury == contract {
            return Err(ContractError::TreasuryIsContract);
        }
        if self.admin == Some(new_treasury) {
            return Err(ContractError::TreasuryIsAdmin);
        }
        if self.secondary_admin == Some(new_treasury) {
            return Err(ContractError::TreasuryIsSecondaryAdmin);
        }
        match self.treasury {
            None => {
                return Err(ContractError::TreasuryNotSet);
            },
            Some(t) => {
                if t == new_treasury {
                    return Err(ContractError::TreasuryUnchanged);
                }
            },
        }
        let effective_ledger = match now.checked_add(TREASURY_UPDATE_DELAY) {
            None => {
                return Err(ContractError::Overflow);
            },
            Some(x) => x,
        };
        self.pending_treasury = Some(TreasuryUpdate { address: new_treasury, effective_ledger });
        Ok(())
    }

    /// Admin sets the default platform fee percentage (at most 100).
    pub fn update_default_fee(&mut self, now: u32, admin: Addr, new_fee_pct: u32) -> (r: Result<
        (),
        ContractError,
    >)
        requires
            old(self).wf(),
        ensures
            final(self).wf(),
            committed(
                r,
                match admin_check(old(self)@, now, admin) {
                    Some(e) => Err(e),
                    None => if new_fee_pct > 100 {
                        Err(ContractError::FeeTooHigh)
                    } else {
                        Ok(State { default_fee: new_fee_pct, ..old(self)@ })
                    },
                },
                old(self)@,
                final(self)@,
            ),
    {
        if let Some(e) = self.check_admin(now, admin) {
            return Err(e);
        }
        if new_fee_pct > 100 {
            return Err(ContractError::FeeTooHigh);
        }
        self.default_fee = new_fee_pct;
        Ok(())
    }

    /// Admin whitelists a payment token.
    pub fn add_approved_token(&mut self, now: u32, admin: Addr, token: Addr) -> (r: Result<
        (),
        ContractError,
    >)
        requires
            old(self).wf(),
        ensures
            final(self).wf(),
            committed(
                r,
                guarded(
                    admin_check(old(self)@, now, admin),
                    State {
                        approved_tokens: old(self)@.approved_tokens.insert(akey(token), ()),
                        ..old(self)@
                    },
                ),
                old(self)@,
                final(self)@,
            ),
    {
        if let Some(e) = self.check_admin(now, admin) {
            return Err(e);
        }
        self.approved_tokens.set(Key::of_addr(token), ());
        Ok(())
    }

    /// Admin removes a payment token from the whitelist.
    pub fn remove_approved_token(&mut self, now: u32, admin: Addr, token: Addr) -> (r: Result<
        (),
        ContractError,
    >)
        requires
            old(self).wf(),
        ensures
            final(self).wf(),
            committed(
                r,
                guarded(
                    admin_check(old(self)@, now, admin),
                    State {
                        approved_tokens: old(self)@.approved_tokens.remove(akey(token)),
                        ..old(self)@
                    },
                ),
                old(self)@,
                final(self)@,
            ),
    {
        if let Some(e) = self.check_admin(now, admin) {
            return Err(e);
        }
        let _ = self.approved_tokens.remove(&Key::of_addr(token));
        Ok(())
    }

    /// Admin sets the per-instructor course registration limit.
    pub fn update_max_courses_limit(&mut self, now: u32, admin: Addr, new_max: u32) -> (r: Result<
        (),
        ContractError,
    >)
        requires
            old(self).wf(),
        ensures
            final(self).wf(),
            committed(
                r,
                guarded(admin_check(old(self)@, now, admin), State { max_courses: new_max, ..old(self)@ }),
                old(self)@,
                final(self)@,
            ),
    {
        if let Some(e) = self.check_admin(now, admin) {
            return Err(e);
        }
        self.max_courses = new_max;
        Ok(())
    }

    /// Admin freezes an instructor, pausing all of the instructor's Active
    /// courses.
    pub fn freeze_instructor(&mut self, now: u32, admin: Addr, instructor: Addr) -> (r: Result<
        (),
        ContractError,
    >)
        requires
            old(self).wf(),
        ensures
            final(self).wf(),
            committed(r, spec_freeze_instructor(old(self)@, now, admin, instructor), old(self)@, final(self)@),
    {
        if let Some(e) = self.check_admin(now, admin) {
            return Err(e);
        }
        self.frozen_instructors.set(Key::of_addr(instructor), ());
        let ids = match self.instructor_courses.get(&Key::of_addr(instructor)) {
            Some(l) => TextList { items: crate::model::copy_texts(&l.items) },
            None => TextList { items: Vec::new() },
        };
        let ghost idv = texts_of(old(self)@.instructor_courses, akey(instructor));
        assert(ids@ == idv) by {
            if !old(self)@.instructor_courses.contains_key(akey(instructor)) {
                assert(ids@ =~= Seq::<Seq<u8>>::empty());
            }
        }
        let ghost s1 = State {
            frozen_instructors: old(self)@.frozen_instructors.insert(akey(instructor), ()),
            ..old(self)@
        };
        let ghost target = pause_listed(old(self)@.courses, idv, 0, now);
        let mut i: usize = 0;
        while i < ids.items.len()
            invariant
                self.wf(),
                i <= ids.items.len(),
                ids@ == idv,
                ids@.len() == ids.items.len(),
                target == pause_listed(old(self)@.courses, idv, 0, now),
                target == pause_listed(self@.courses, idv, i as int, now),
                self@ == (State { courses: self@.courses, ..s1 }),
            decreases ids.items.len() - i,
        {
            assert(idv[i as int] == ids.items@[i as int]@);
            let key = Key::of_text(&ids.items[i]);
            let paused = match self.courses.get(&key) {
                None => None,
                Some(c) => {
                    if c.status == CourseStatus::Active {
                        let mut c2 = c.duplicate();
                        c2.status = CourseStatus::Paused;
                        c2.last_updated_ledger = now;
                        Some(c2)
                    } else {
                        None
                    }
                },
            };
            match paused {
                Some(c2) => {
                    let ghost prev = self@;
                    let ghost cv = c2@;
                    self.courses.set(key, c2);
                    proof {
                        lemma_cover_update(prev, self@, idv[i as int], cv);
                    }
                },
                None => {},
            }
            i = i + 1;
        }
        Ok(())
    }

    /// Admin unfreezes an instructor. Paused courses stay paused.
    pub fn unfreeze_instructor(&mut self, now: u32, admin: Addr, instructor: Addr) -> (r: Result<
        (),
        ContractError,
    >)
        requires
            old(self).wf(),
        ensures
            final(self).wf(),
            committed(
                r,
                guarded(
                    admin_check(old(self)@, now, admin),
                    State {
                        frozen_instructors: old(self)@.frozen_instructors.remove(akey(instructor)),
                        ..old(self)@
                    },
                ),
                old(self)@,
                final(self)@,
            ),
    {
        if let Some(e) = self.check_admin(now, admin) {
            return Err(e);
        }
        let _ = self.frozen_instructors.remove(&Key::of_addr(instructor));
        Ok(())
    }

    /// Admin adds an approver, who may approve and reject courses.
    pub fn add_approver(&mut self, now: u32, admin: Addr, approver: Addr) -> (r: Result<
        (),
        ContractError,
    >)
        requires
            old(self).wf(),
        ensures
            final(self).wf(),
            committed(r, spec_add_approver(old(self)@, now, admin, approver), old(self)@, final(self)@),
    {
        if let Some(e) = self.check_admin(now, admin) {
            return Err(e);
        }
        if approver == admin {
            return Err(ContractError::ApproverIsAdmin);
        }
        if Self::in_addr_set(&self.approvers, approver) {
            return Err(ContractError::AlreadyApprover);
        }
        self.approvers.set(Key::of_addr(approver), ());
        Ok(())
    }

    /// Admin removes an approver.
    pub fn remove_approver(&mut self, now: u32, admin: Addr, approver: Addr) -> (r: Result<
        (),
        ContractError,
    >)
        requires
            old(self).wf(),
        ensures
            final(self).wf(),
            committed(r, spec_remove_approver(old(self)@, now, admin, approver), old(self)@, final(self)@),
    {
        if let Some(e) = self.check_admin(now, admin) {
            return Err(e);
        }
        if !Self::in_addr_set(&self.approvers, approver) {
            return Err(ContractError::NotApprover);
        }
        let _ = self.approvers.remove(&Key::of_addr(approver));
        Ok(())
    }

    pub fn is_approver_address(&self, address: Addr) -> (r: bool)
        requires
            self.wf(),
        ensures
            r == in_set(self@.approvers, address),
    {
        Self::in_addr_set(&self.approvers, address)
    }

    pub fn is_instructor_frozen(&self, instructor: Addr) -> (r: bool)
        requires
            self.wf(),
        ensures
            r == in_set(self@.frozen_instructors, instructor),
    {
        Self::in_addr_set(&self.frozen_instructors, instructor)
    }

    /// Admin bans a student from enrolling, completing and refunds.
    pub fn block_student(&mut self, now: u32, admin: Addr, student: Addr) -> (r: Result<
        (),
        ContractError,
    >)
        requires
            old(self).wf(),
        ensures
            final(self).wf(),
            committed(
                r,
                guarded(
                    admin_check(old(self)@, now, admin),
                    State {
                        blocked_students: old(self)@.blocked_students.insert(akey(student), ()),
                        ..old(self)@
                    },
                ),
                old(self)@,
                final(self)@,
            ),
    {
        if let Some(e) = self.check_admin(now, admin) {
            return Err(e);
        }
        self.blocked_students.set(Key::of_addr(student), ());
        Ok(())
    }

    /// Admin lifts a student's ban.
    pub fn unblock_student(&mut self, now: u32, admin: Addr, student: Addr) -> (r: Result<
        (),
        ContractError,
    >)
        requires
            old(self).wf(),
        ensures
            final(self).wf(),
            committed(
                r,
                guarded(
                    admin_check(old(self)@, now, admin),
                    State {
                        blocked_students: old(self)@.blocked_students.remove(akey(student)),
                        ..old(self)@
                    },
                ),
                old(self)@,
                final(self)@,
            ),
    {
        if let Some(e) = self.check_admin(now, admin) {
            return Err(e);
        }
        let _ = self.blocked_students.remove(&Key::of_addr(student));
        Ok(())
    }

    pub fn is_student_blocked(&self, student: Addr) -> (r: bool)
        requires
            self.wf(),
        ensures
            r == in_set(self@.blocked_students, student),
    {
        Self::in_addr_set(&self.blocked_students, student)
    }

    pub fn get_max_courses_limit(&self) -> (r: u32)
        ensures
            r == self@.max_courses,
    {
        self.max_courses
    }

    /// Both admins set (in the future) or clear the admin role's expiry.
    pub fn set_admin_expiry(
        &mut self,
        now: u32,
        admin1: Addr,
        admin2: Addr,
        expires_at: Option<u32>,
    ) -> (r: Result<(), ContractError>)
        requires
            old(self).wf(),
        ensures
            final(self).wf(),
            committed(
                r,
                spec_set_admin_expiry(old(self)@, now, admin1, admin2, expires_at),
                old(self)@,
                final(self)@,
            ),
    {
        if let Some(e) = self.check_multi_admin(now, admin1, admin2) {
            return Err(e);
        }
        if let Some(expiry) = expires_at {
            if expiry <= now {
                return Err(ContractError::ExpiryNotInFuture);
            }
        }
        self.admin_expires_at = expires_at;
        Ok(())
    }

    pub fn get_admin_expiry(&self) -> (r: Option<u32>)
        ensures
            r == self@.admin_expires_at,
    {
        self.admin_expires_at
    }

    /// Admin sets or clears the platform-wide active enrollment cap.
    pub fn set_platform_enrollment_cap(&mut self, now: u32, admin: Addr, cap: Option<u32>) -> (r:
        Result<(), ContractError>)
        requires
            old(self).wf(),
        ensures
            final(self).wf(),
            committed(
                r,
                guarded(admin_check(old(self)@, now, admin), State { platform_cap: cap, ..old(self)@ }),
                old(self)@,
                final(self)@,
            ),
    {
        if let Some(e) = self.check_admin(now, admin) {
            return Err(e);
        }
        self.platform_cap = cap;
        Ok(())
    }

    pub fn get_platform_enrollment_cap(&self) -> (r: Option<u32>)
        ensures
            r == self@.platform_cap,
    {
        self.platform_cap
    }

    pub fn get_total_active_enrollments(&self) -> (r: u32)
        ensures
            r == self@.total_active,
    {
        self.total_active
    }

    /// Admin sets how long a Pending course waits before it may be approved.
    pub fn update_min_review_delay(&mut self, now: u32, admin: Addr, delay: u32) -> (r: Result<
        (),
        ContractError,
    >)
        requires
            old(self).wf(),
        ensures
            final(self).wf(),
            committed(
                r,
                guarded(admin_check(old(self)@, now, admin), State { min_review_delay: delay, ..old(self)@ }),
                old(self)@,
                final(self)@,
            ),
    {
        if let Some(e) = self.check_admin(now, admin) {
            return Err(e);
        }
        self.min_review_delay = delay;
        Ok(())
    }

    pub fn get_min_review_delay(&self) -> (r: u32)
        ensures
            r == self@.min_review_delay,
    {
        self.min_review_delay
    }

    /// Admin sets the minimum enrollment duration given to courses
    /// registered from now on.
    pub fn update_min_completion_ledgers(&mut self, now: u32, admin: Addr, ledgers: u32) -> (r:
        Result<(), ContractError>)
        requires
            old(self).wf(),
        ensures
            final(self).wf(),
            committed(
                r,
                guarded(
                    admin_check(old(self)@, now, admin),
                    State { default_min_completion: ledgers, ..old(self)@ },
                ),
                old(self)@,
                final(self)@,
            ),
    {
        if let Some(e) = self.check_admin(now, admin) {
            return Err(e);
        }
        self.default_min_completion = ledgers;
        Ok(())
    }

    pub fn get_min_completion_ledgers(&self) -> (r: u32)
        ensures
            r == self@.default_min_completion,
    {
        self.default_min_completion
    }

    /// Admin sets the refund window, in ledgers.
    pub fn update_refund_window(&mut self, now: u32, admin: Addr, window: u32) -> (r: Result<
        (),
        ContractError,
    >)
        requires
            old(self).wf(),
        ensures
            final(self).wf(),
            committed(
                r,
                guarded(admin_check(old(self)@, now, admin), State { refund_window: window, ..old(self)@ }),
                old(self)@,
                final(self)@,
            ),
    {
        if let Some(e) = self.check_admin(now, admin) {
            return Err(e);
        }
        self.refund_window = window;
        Ok(())
    }

    pub fn get_refund_window(&self) -> (r: u32)
        ensures
            r == self@.refund_window,
    {
        self.refund_window
    }

    /// Admin sets the challenge period of future revocations.
    pub fn set_revocation_challenge_period(&mut self, now: u32, admin: Addr, period: u32) -> (r:
        Result<(), ContractError>)
        requires
            old(self).wf(),
        ensures
            final(self).wf(),
            committed(
                r,
                guarded(admin_check(old(self)@, now, admin), State { challenge_period: period, ..old(self)@ }),
                old(self)@,
                final(self)@,
            ),
    {
        if let Some(e) = self.check_admin(now, admin) {
            return Err(e);
        }
        self.challenge_period = period;
        Ok(())
    }

    pub fn get_revocation_challenge_period(&self) -> (r: u32)
        ensures
            r == self@.challenge_period,
    {
        self.challenge_period
    }

    /// The default platform fee percentage (admin only).
    pub fn get_platform_fee(&self, now: u32, admin: Addr) -> (r: Result<u32, ContractError>)
        ensures
            match admin_check(self@, now, admin) {
                Some(e) => r == Err::<u32, ContractError>(e),
                None => r == Ok::<u32, ContractError>(self@.default_fee),
            },
    {
        if let Some(e) = self.check_admin(now, admin) {
            return Err(e);
        }
        Ok(self.default_fee)
    }

    /// Both admins propose a code upgrade, executable after the time-lock.
    pub fn propose_upgrade(
        &mut self,
        now: u32,
        admin1: Addr,
        admin2: Addr,
        new_wasm_hash: [u8; 32],
    ) -> (r: Result<(), ContractError>)
        requires
            old(self).wf(),
        ensures
            final(self).wf(),
            committed(
                r,
                spec_propose_upgrade(old(self)@, now, admin1, admin2, new_wasm_hash),
                old(self)@,
                final(self)@,
            ),
    {
        if let Some(e) = self.check_multi_admin(now, admin1, admin2) {
            return Err(e);
        }
        let effective_ledger = match now.checked_add(self.upgrade_timelock) {
            None => {
                return Err(ContractError::Overflow);
            },
            Some(x) => x,
        };
        self.pending_upgrade = Some(
            PendingUpgrade { new_wasm_hash, proposed_at_ledger: now, effective_ledger },
        );
        Ok(())
    }

    /// Both admins withdraw the pending upgrade.
    pub fn cancel_upgrade(&mut self, now: u32, admin1: Addr, admin2: Addr) -> (r: Result<
        (),
        ContractError,
    >)
        requires
            old(self).wf(),
        ensures
            final(self).wf(),
            committed(r, spec_cancel_upgrade(old(self)@, now, admin1, admin2), old(self)@, final(self)@),
    {
        if let Some(e) = self.check_multi_admin(now, admin1, admin2) {
            return Err(e);
        }
        if self.pending_upgrade.is_none() {
            return Err(ContractError::NoPendingUpgrade);
        }
        self.pending_upgrade = None;
        Ok(())
    }

    /// Both admins execute the pending upgrade after its time-lock;
    /// returns the hash of the code to install.
    pub fn upgrade_contract(&mut self, now: u32, admin1: Addr, admin2: Addr) -> (r: Result<
        [u8; 32],
        ContractError,
    >)
        requires
            old(self).wf(),
        ensures
            final(self).wf(),
            committed(r, spec_upgrade_contract(old(self)@, now, admin1, admin2), old(self)@, final(self)@),
            r matches Ok(h) ==> old(self)@.pending_upgrade matches Some(p) && h == p.new_wasm_hash,
    {
        if let Some(e) = self.check_multi_admin(now, admin1, admin2) {
            return Err(e);
        }
        let pending = match self.pending_upgrade {
            None => {
                return Err(ContractError::NoPendingUpgrade);
            },
            Some(p) => p,
        };
        if now < pending.effective_ledger {
            return Err(ContractError::UpgradeTimelockActive);
        }
        self.pending_upgrade = None;
        Ok(pending.new_wasm_hash)
    }

    /// Both admins set the upgrade time-lock; a pending upgrade keeps its
    /// own effective ledger.
    pub fn set_upgrade_timelock(&mut self, now: u32, admin1: Addr, admin2: Addr, ledgers: u32) -> (r:
        Result<(), ContractError>)
        requires
            old(self).wf(),
        ensures
            final(self).wf(),
            committed(
                r,
                guarded(
                    multi_admin_check(old(self)@, now, admin1, admin2),
                    State { upgrade_timelock: ledgers, ..old(self)@ },
                ),
                old(self)@,
                final(self)@,
            ),
    {
        if let Some(e) = self.check_multi_admin(now, admin1, admin2) {
            return Err(e);
        }
        self.upgrade_timelock = ledgers;
        Ok(())
    }

    pub fn get_upgrade_timelock(&self) -> (r: u32)
        ensures
            r == self@.upgrade_timelock,
    {
        self.upgrade_timelock
    }

    pub fn get_pending_upgrade(&self) -> (r: Option<PendingUpgrade>)
        ensures
            r == self@.pending_upgrade,
    {
        self.pending_upgrade
    }
}

} // verus!
