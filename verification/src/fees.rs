//! Fee arithmetic: per-token base fees, risk surcharges and the platform /
//! instructor split of a payment.
use vstd::prelude::*;
use crate::model::{ContractError, FeeConfig, RiskFeeConfig, RiskScore, RiskFeeApplied};

verus! {

/// Basis points in one whole (100%).
pub const BPS_DENOMINATOR: u32 = 10000;

/// Saturating addition on `u32`.
pub open spec fn sat_add(a: u32, b: u32) -> u32 {
    if a + b > u32::MAX {
        u32::MAX
    } else {
        (a + b) as u32
    }
}

/// The fee configuration that applies to a token: its own override, or the
/// platform default percentage converted to basis points.
pub open spec fn spec_fee_config(token_cfg: Option<FeeConfig>, default_pct: u32) -> FeeConfig {
    match token_cfg {
        Some(c) => c,
        None => FeeConfig { fee_bps: (default_pct * 100) as u32 },
    }
}

pub fn fee_config_for(token_cfg: Option<FeeConfig>, default_pct: u32) -> (r: FeeConfig)
    requires
        default_pct <= 100,
    ensures
        r == spec_fee_config(token_cfg, default_pct),
{
    match token_cfg {
        Some(c) => c,
        None => FeeConfig { fee_bps: default_pct * 100 },
    }
}

/// The risk score and surcharge of a payment. Surcharges apply only when
/// risk pricing is enabled and a configuration is stored.
pub open spec fn spec_risk_score(
    enabled: bool,
    config: Option<RiskFeeConfig>,
    payment_amount: i128,
    is_new_customer: bool,
    is_btc_eth: bool,
) -> RiskScore {
    match config {
        Some(c) => if enabled {
            let s1: u32 = if payment_amount > c.large_payment_threshold { 30 } else { 0 };
            let b1: u32 = if payment_amount > c.large_payment_threshold {
                c.large_payment_surcharge_bps
            } else {
                0
            };
            let s2: u32 = if is_new_customer { (s1 + 40) as u32 } else { s1 };
            let b2: u32 = if is_new_customer { sat_add(b1, c.new_customer_surcharge_bps) } else { b1 };
            let s3: u32 = if is_btc_eth { (s2 + 30) as u32 } else { s2 };
            let b3: u32 = if is_btc_eth { sat_add(b2, c.btc_eth_surcharge_bps) } else { b2 };
            RiskScore { score: s3, surcharge_bps: b3 }
        } else {
            RiskScore { score: 0, surcharge_bps: 0 }
        },
        None => RiskScore { score: 0, surcharge_bps: 0 },
    }
}

pub fn risk_score(
    enabled: bool,
    config: Option<RiskFeeConfig>,
    payment_amount: i128,
    is_new_customer: bool,
    is_btc_eth: bool,
) -> (r: RiskScore)
    ensures
        r == spec_risk_score(enabled, config, payment_amount, is_new_customer, is_btc_eth),
        r.score <= 100,
{
    let c = match config {
        Some(c) => {
            if !enabled {
                return RiskScore { score: 0, surcharge_bps: 0 };
            }
            c
        },
        None => {
            return RiskScore { score: 0, surcharge_bps: 0 };
        },
    };
    let mut score: u32 = 0;
    let mut surcharge_bps: u32 = 0;
    if payment_amount > c.large_payment_threshold {
        score = score.saturating_add(30);
        surcharge_bps = surcharge_bps.saturating_add(c.large_payment_surcharge_bps);
    }
    if is_new_customer {
        score = score.saturating_add(40);
        surcharge_bps = surcharge_bps.saturating_add(c.new_customer_surcharge_bps);
    }
    if is_btc_eth {
        score = score.saturating_add(30);
        surcharge_bps = surcharge_bps.saturating_add(c.btc_eth_surcharge_bps);
    }
    RiskScore { score, surcharge_bps }
}

/// The effective fee rate: base plus surcharge, capped at 100%.
pub open spec fn spec_effective_bps(base_bps: u32, surcharge_bps: u32) -> u32 {
    let s = sat_add(base_bps, surcharge_bps);
    if s < 10000 {
        s
    } else {
        10000
    }
}

/// The platform's share of a payment at a rate in basis points.
pub open spec fn spec_platform_fee(amount: i128, bps: u32) -> int {
    (amount * bps) / 10000
}

/// The full fee breakdown of a payment; it fails only when
/// `amount * effective_bps` does not fit in an `i128`.
pub open spec fn spec_fee_breakdown(
    base_fee_bps: u32,
    enabled: bool,
    config: Option<RiskFeeConfig>,
    payment_amount: i128,
    is_new_customer: bool,
    is_btc_eth: bool,
) -> Result<RiskFeeApplied, ContractError> {
    if payment_amount <= 0 {
        Ok(
            RiskFeeApplied {
                payment_amount,
                base_fee_bps,
                risk_surcharge_bps: 0,
                effective_fee_bps: base_fee_bps,
                platform_fee: 0,
            },
        )
    } else {
        let risk = spec_risk_score(enabled, config, payment_amount, is_new_customer, is_btc_eth);
        let eff = spec_effective_bps(base_fee_bps, risk.surcharge_bps);
        if payment_amount * eff > i128::MAX {
            Err(ContractError::Overflow)
        } else {
            Ok(
                RiskFeeApplied {
                    payment_amount,
                    base_fee_bps,
                    risk_surcharge_bps: risk.surcharge_bps,
                    effective_fee_bps: eff,
                    platform_fee: spec_platform_fee(payment_amount, eff) as i128,
                },
            )
        }
    }
}

proof fn lemma_fee_bounds(amount: i128, bps: u32)
    requires
        amount > 0,
        bps <= 10000,
    ensures
        0 <= spec_platform_fee(amount, bps) <= amount,
{
    assert(0 <= amount * bps <= amount * 10000) by (nonlinear_arith)
        requires
            amount > 0,
            bps <= 10000,
    ;
    assert((amount * bps) / 10000 <= amount) by (nonlinear_arith)
        requires
            0 <= amount * bps <= amount * 10000,
    ;
    assert(0 <= (amount * bps) / 10000) by (nonlinear_arith)
        requires
            0 <= amount * bps,
    ;
}

pub fn fee_breakdown(
    base_fee_bps: u32,
    enabled: bool,
    config: Option<RiskFeeConfig>,
    payment_amount: i128,
    is_new_customer: bool,
    is_btc_eth: bool,
) -> (r: Result<RiskFeeApplied, ContractError>)
    ensures
        r == spec_fee_breakdown(
            base_fee_bps,
            enabled,
            config,
            payment_amount,
            is_new_customer,
            is_btc_eth,
        ),
        r matches Ok(b) ==> b.effective_fee_bps <= 10000 || payment_amount <= 0,
        r matches Ok(b) ==> 0 <= b.platform_fee <= payment_amount || payment_amount <= 0,
{
    if payment_amount <= 0 {
        return Ok(
            RiskFeeApplied {
                payment_amount,
                base_fee_bps,
                risk_surcharge_bps: 0,
                effective_fee_bps: base_fee_bps,
                platform_fee: 0,
            },
        );
    }
    let risk_surcharge_bps = risk_score(
        enabled,
        config,
        payment_amount,
        is_new_customer,
        is_btc_eth,
    ).surcharge_bps;
    let summed = base_fee_bps.saturating_add(risk_surcharge_bps);
    let effective_fee_bps: u32 = if summed < BPS_DENOMINATOR {
        summed
    } else {
        BPS_DENOMINATOR
    };
    match payment_amount.checked_mul(effective_fee_bps as i128) {
        None => Err(ContractError::Overflow),
        Some(product) => {
            proof {
                lemma_fee_bounds(payment_amount, effective_fee_bps);
            }
            let platform_fee = product / 10000;
            Ok(
                RiskFeeApplied {
                    payment_amount,
                    base_fee_bps,
                    risk_surcharge_bps,
                    effective_fee_bps,
                    platform_fee,
                },
            )
        },
    }
}

/// The split of a payment into `(instructor share, platform share)`: no fee
/// on a non-positive amount, else the amount less the platform fee, and the
/// platform fee. The two shares always add up to the amount.
pub open spec fn spec_split(amount: i128, breakdown: RiskFeeApplied) -> (i128, i128) {
    if amount <= 0 {
        (amount, 0)
    } else {
        ((amount - breakdown.platform_fee) as i128, breakdown.platform_fee)
    }
}

/// The deduction itself: the two shares always add up to the amount paid,
/// and neither is negative when the amount is positive.
pub fn split_payment(amount: i128, breakdown: &RiskFeeApplied) -> (r: (i128, i128))
    requires
        amount > 0 ==> 0 <= breakdown.platform_fee <= amount,
    ensures
        r == spec_split(amount, *breakdown),
        r.0 + r.1 == amount,
        amount > 0 ==> r.0 >= 0 && r.1 >= 0,
        amount <= 0 ==> r.0 == amount && r.1 == 0,
{
    if amount <= 0 {
        (amount, 0)
    } else {
        (amount - breakdown.platform_fee, breakdown.platform_fee)
    }
}

/// The risk flags of a payment `(is_new_customer, is_btc_eth)`: no per-student
/// history nor token classification is kept, so both are always unset.
pub open spec fn spec_risk_flags() -> (bool, bool) {
    (false, false)
}

pub fn resolve_risk_flags(student: u64, token: u64) -> (r: (bool, bool))
    ensures
        r == spec_risk_flags(),
{
    (false, false)
}

/// The two shares of a payment add up to it, the platform's share of a
/// non-negative payment lies between zero and the payment, and the rate
/// charged on a positive payment is at most 100%.
pub proof fn law_split_conserves_amount(
    base_fee_bps: u32,
    enabled: bool,
    config: Option<RiskFeeConfig>,
    amount: i128,
    is_new_customer: bool,
    is_btc_eth: bool,
)
    requires
        spec_fee_breakdown(base_fee_bps, enabled, config, amount, is_new_customer, is_btc_eth) is Ok,
    ensures
        ({
            let b = spec_fee_breakdown(
                base_fee_bps,
                enabled,
                config,
                amount,
                is_new_customer,
                is_btc_eth,
            )->Ok_0;
            let (net, fee) = spec_split(amount, b);
            &&& net + fee == amount
            &&& amount >= 0 ==> 0 <= fee <= amount
            &&& amount > 0 ==> b.effective_fee_bps <= 10000
        }),
{
    let risk = spec_risk_score(enabled, config, amount, is_new_customer, is_btc_eth);
    let eff = spec_effective_bps(base_fee_bps, risk.surcharge_bps);
    if amount > 0 {
        lemma_fee_bounds(amount, eff);
    }
}

} // verus!
