//! Fee and risk configuration on the platform, the fee previews that match
//! what an enrollment charges, and dispute escalation.
use vstd::prelude::*;
use crate::admin::guarded;
use crate::enrollment::base_fee_bps;
use crate::fees::{fee_breakdown, fee_config_for, resolve_risk_flags, risk_score, spec_fee_breakdown, spec_fee_config, spec_risk_flags, spec_risk_score};
use crate::model::{ArbitrationFeeConfig, ContractError, FeeConfig, RiskFeeApplied, RiskFeeConfig, RiskScore, Transfer};
use crate::state::{HamplardContract, State, admin_check, committed, lookup_course};
use crate::table::{Addr, Key, akey};

verus! {

/// Large-payment threshold reported when no risk configuration is stored
/// (100,000 USDC in stroops).
pub const DEFAULT_LARGE_PAYMENT_THRESHOLD: i128 = 1000000000000;

/// The risk configuration reported when none is stored.
pub open spec fn default_risk_config() -> RiskFeeConfig {
    RiskFeeConfig {
        large_payment_surcharge_bps: 0,
        large_payment_threshold: DEFAULT_LARGE_PAYMENT_THRESHOLD,
        new_customer_surcharge_bps: 0,
        btc_eth_surcharge_bps: 0,
    }
}

/// The fee configuration in force for a token.
pub open spec fn token_fee_config(s: State, token: Addr) -> FeeConfig {
    spec_fee_config(
        if s.fee_configs.contains_key(akey(token)) {
            Some(s.fee_configs[akey(token)])
        } else {
            None
        },
        s.default_fee,
    )
}

/// The risk score of a payment, with the flags enrollment charges with.
pub open spec fn payment_risk(s: State, payment_amount: i128) -> RiskScore {
    spec_risk_score(
        s.risk_enabled,
        s.risk_config,
        payment_amount,
        spec_risk_flags().0,
        spec_risk_flags().1,
    )
}

/// Escalating a dispute: the arbitration fee, which must be configured,
/// moves from the caller to the contract in the course's token.
pub open spec fn spec_escalate(s: State, contract: Addr, caller: Addr, course_id: Seq<u8>) -> Result<
    Transfer,
    ContractError,
> {
    if s.arbitration_fee.fee_per_case <= 0 {
        Err(ContractError::ArbitrationNotConfigured)
    } else {
        match lookup_course(s, course_id) {
            None => Err(ContractError::CourseNotFound),
            Some(c) => Ok(
                Transfer {
                    token: c.token,
                    from: caller,
                    to: contract,
                    amount: s.arbitration_fee.fee_per_case,
                },
            ),
        }
    }
}

impl HamplardContract {
    /// Admin sets a token's fee, in basis points (at most 10000).
    pub fn set_fee_config(&mut self, now: u32, admin: Addr, token: Addr, fee_bps: u32) -> (r: Result<
        (),
        ContractError,
    >)
        requires
            old(self).wf(),
        ensures
            final(self).wf(),
            committed(
                r,
                match admin_check(old(self)@, now, admin) {
                    Some(e) => Err(e),
                    None => if fee_bps > 10000 {
                        Err(ContractError::FeeBpsTooHigh)
                    } else {
                        Ok(
                            State {
                                fee_configs: old(self)@.fee_configs.insert(
                                    akey(token),
                                    FeeConfig { fee_bps },
                                ),
                                ..old(self)@
                            },
                        )
                    },
                },
                old(self)@,
                final(self)@,
            ),
    {
        if let Some(e) = self.check_admin(now, admin) {
            return Err(e);
        }
        if fee_bps > 10000 {
            return Err(ContractError::FeeBpsTooHigh);
        }
        self.fee_configs.set(Key::of_addr(token), FeeConfig { fee_bps });
        Ok(())
    }

    /// The fee configuration in force for a token: its own, else the
    /// default percentage in basis points.
    pub fn get_fee_config(&self, token: Addr) -> (r: FeeConfig)
        requires
            self.wf(),
        ensures
            r == token_fee_config(self@, token),
            r.fee_bps == base_fee_bps(self@, token),
    {
        let cfg = match self.fee_configs.get(&Key::of_addr(token)) {
            Some(c) => Some(*c),
            None => None,
        };
        fee_config_for(cfg, self.default_fee)
    }

    /// Admin sets the fee of an arbitration case (not negative).
    pub fn set_arbitration_fee_config(&mut self, now: u32, admin: Addr, fee_per_case: i128) -> (r:
        Result<(), ContractError>)
        requires
            old(self).wf(),
        ensures
            final(self).wf(),
            committed(
                r,
                match admin_check(old(self)@, now, admin) {
                    Some(e) => Err(e),
                    None => if fee_per_case < 0 {
                        Err(ContractError::NegativeArbitrationFee)
                    } else {
                        Ok(
                            State {
                                arbitration_fee: ArbitrationFeeConfig { fee_per_case },
                                ..old(self)@
                            },
                        )
                    },
                },
                old(self)@,
                final(self)@,
            ),
    {
        if let Some(e) = self.check_admin(now, admin) {
            return Err(e);
        }
        if fee_per_case < 0 {
            return Err(ContractError::NegativeArbitrationFee);
        }
        self.arbitration_fee = ArbitrationFeeConfig { fee_per_case };
        Ok(())
    }

    pub fn get_arbitration_fee_config(&self) -> (r: ArbitrationFeeConfig)
        ensures
            r == self@.arbitration_fee,
    {
        self.arbitration_fee
    }

    /// Admin switches risk-based surcharges on or off.
    pub fn set_risk_config_enabled(&mut self, now: u32, admin: Addr, enabled: bool) -> (r: Result<
        (),
        ContractError,
    >)
        requires
            old(self).wf(),
        ensures
            final(self).wf(),
            committed(
                r,
                guarded(admin_check(old(self)@, now, admin), State { risk_enabled: enabled, ..old(self)@ }),
                old(self)@,
                final(self)@,
            ),
    {
        if let Some(e) = self.check_admin(now, admin) {
            return Err(e);
        }
        self.risk_enabled = enabled;
        Ok(())
    }

    pub fn is_risk_config_enabled(&self) -> (r: bool)
        ensures
            r == self@.risk_enabled,
    {
        self.risk_enabled
    }

    /// Admin sets the risk surcharges; the threshold cannot be negative.
    pub fn set_risk_fee_config(
        &mut self,
        now: u32,
        admin: Addr,
        large_payment_surcharge_bps: u32,
        large_payment_threshold: i128,
        new_customer_surcharge_bps: u32,
        btc_eth_surcharge_bps: u32,
    ) -> (r: Result<(), ContractError>)
        requires
            old(self).wf(),
        ensures
            final(self).wf(),
            committed(
                r,
                match admin_check(old(self)@, now, admin) {
                    Some(e) => Err(e),
                    None => if large_payment_threshold < 0 {
                        Err(ContractError::NegativeThreshold)
                    } else {
                        Ok(
                            State {
                                risk_config: Some(
                                    RiskFeeConfig {
                                        large_payment_surcharge_bps,
                                        large_payment_threshold,
                                        new_customer_surcharge_bps,
                                        btc_eth_surcharge_bps,
                                    },
                                ),
                                ..old(self)@
                            },
                        )
                    },
                },
                old(self)@,
                final(self)@,
            ),
    {
        if let Some(e) = self.check_admin(now, admin) {
            return Err(e);
        }
        if large_payment_threshold < 0 {
            return Err(ContractError::NegativeThreshold);
        }
        self.risk_config = Some(
            RiskFeeConfig {
                large_payment_surcharge_bps,
                large_payment_threshold,
                new_customer_surcharge_bps,
                btc_eth_surcharge_bps,
            },
        );
        Ok(())
    }

    /// The stored risk configuration, else the default one.
    pub fn get_risk_fee_config(&self) -> (r: RiskFeeConfig)
        ensures
            r == match self@.risk_config {
                Some(c) => c,
                None => default_risk_config(),
            },
    {
        match self.risk_config {
            Some(c) => c,
            None => RiskFeeConfig {
                large_payment_surcharge_bps: 0,
                large_payment_threshold: DEFAULT_LARGE_PAYMENT_THRESHOLD,
                new_customer_surcharge_bps: 0,
                btc_eth_surcharge_bps: 0,
            },
        }
    }

    /// The risk score and surcharge a student's payment would get.
    pub fn calculate_risk_score(&self, student: Addr, token: Addr, payment_amount: i128) -> (r:
        RiskScore)
        ensures
            r == payment_risk(self@, payment_amount),
    {
        let (is_new_customer, is_btc_eth) = resolve_risk_flags(student, token);
        risk_score(self.risk_enabled, self.risk_config, payment_amount, is_new_customer, is_btc_eth)
    }

    /// The fee breakdown a student's payment in a token would get, exactly
    /// as an enrollment charges it.
    pub fn get_effective_fee_for_payment(&self, student: Addr, token: Addr, payment_amount: i128) -> (r:
        Result<RiskFeeApplied, ContractError>)
        requires
            self.wf(),
        ensures
            r == spec_fee_breakdown(
                base_fee_bps(self@, token),
                self@.risk_enabled,
                self@.risk_config,
                payment_amount,
                spec_risk_flags().0,
                spec_risk_flags().1,
            ),
    {
        let base = self.get_fee_config(token).fee_bps;
        let (is_new_customer, is_btc_eth) = resolve_risk_flags(student, token);
        fee_breakdown(
            base,
            self.risk_enabled,
            self.risk_config,
            payment_amount,
            is_new_customer,
            is_btc_eth,
        )
    }

    /// The fee breakdown of a payment; the same as
    /// `get_effective_fee_for_payment`.
    pub fn do_complete_payment(&self, student: Addr, token: Addr, payment_amount: i128) -> (r: Result<
        RiskFeeApplied,
        ContractError,
    >)
        requires
            self.wf(),
        ensures
            r == spec_fee_breakdown(
                base_fee_bps(self@, token),
                self@.risk_enabled,
                self@.risk_config,
                payment_amount,
                spec_risk_flags().0,
                spec_risk_flags().1,
            ),
    {
        self.get_effective_fee_for_payment(student, token, payment_amount)
    }

    /// A caller escalates a course dispute, paying the arbitration fee;
    /// returns the payment to collect.
    pub fn escalate_to_arbitration(&self, contract: Addr, caller: Addr, course_id: &Vec<u8>) -> (r:
        Result<Transfer, ContractError>)
        requires
            self.wf(),
        ensures
            r == spec_escalate(self@, contract, caller, course_id@),
    {
        let fee = self.arbitration_fee.fee_per_case;
        if fee <= 0 {
            return Err(ContractError::ArbitrationNotConfigured);
        }
        match self.find_course(course_id) {
            None => Err(ContractError::CourseNotFound),
            Some(c) => Ok(Transfer { token: c.token, from: caller, to: contract, amount: fee }),
        }
    }
}

} // verus!
