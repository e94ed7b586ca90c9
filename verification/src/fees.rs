use vstd::prelude::*;
use vstd::arithmetic::div_mod::lemma_div_is_ordered;
use vstd::arithmetic::div_mod::lemma_div_multiples_vanish;
use vstd::arithmetic::div_mod::lemma_div_pos_is_pos;
use vstd::arithmetic::div_mod::lemma_fundamental_div_mod;
use vstd::arithmetic::div_mod::lemma_mod_bound;
use vstd::arithmetic::mul::lemma_mul_inequality;
use vstd::arithmetic::mul::lemma_mul_is_commutative;
use vstd::arithmetic::mul::lemma_mul_is_distributive_add;
use vstd::arithmetic::mul::lemma_mul_nonnegative;
use vstd::arithmetic::mul::lemma_mul_upper_bound;

verus! {

/// Fee rates are expressed in basis points of the amount they apply to.
pub const BPS_DENOMINATOR: u64 = 10_000;

/// The fee split applied on creation (of the deposit) and on withdrawal
/// (of the payout): one share to the platform treasury, one to the
/// stream's partner if it has one.
#[derive(Clone, Copy, Debug, PartialEq, Eq)]
pub struct FeePolicy {
    pub treasury_bps: u64,
    pub partner_bps: u64,
}

impl FeePolicy {
    /// The two shares together never exceed the whole.
    pub open spec fn wf(self) -> bool {
        self.treasury_bps + self.partner_bps <= BPS_DENOMINATOR
    }

    /// Runtime check of `wf`, for callers outside verified code.
    pub fn is_well_formed(&self) -> (ok: bool)
        ensures
            ok == self.wf(),
    {
        let total: u128 = self.treasury_bps as u128 + self.partner_bps as u128;
        total <= BPS_DENOMINATOR as u128
    }

    /// A policy that charges nothing.
    pub fn free() -> (policy: FeePolicy)
        ensures
            policy.wf(),
            policy.treasury_bps == 0,
            policy.partner_bps == 0,
    {
        FeePolicy { treasury_bps: 0, partner_bps: 0 }
    }
}

/// The fee on `amount` at `bps` basis points, rounded down.
pub open spec fn spec_fee(amount: u64, bps: u64) -> int {
    (amount * bps) / (BPS_DENOMINATOR as int)
}

/// The partner's fee: zero for a stream without a partner.
pub open spec fn spec_partner_fee(partner: Option<u64>, amount: u64, bps: u64) -> int {
    if partner is Some {
        spec_fee(amount, bps)
    } else {
        0
    }
}

/// A fee is never negative and, at a rate of at most one whole, never more
/// than the amount it is charged on.
pub proof fn lemma_fee_bounds(amount: u64, bps: u64)
    requires
        bps <= BPS_DENOMINATOR,
    ensures
        0 <= spec_fee(amount, bps) <= amount,
{
    let a = amount as int;
    let b = bps as int;
    let d = BPS_DENOMINATOR as int;
    lemma_mul_nonnegative(a, b);
    lemma_div_pos_is_pos(a * b, d);
    lemma_mul_inequality(b, d, a);
    lemma_mul_is_commutative(a, b);
    lemma_mul_is_commutative(a, d);
    lemma_div_is_ordered(a * b, a * d, d);
    lemma_div_multiples_vanish(a, d);
}

/// The two shares of a well-formed policy, each rounded down separately,
/// never exceed the amount they divide.
pub proof fn lemma_fee_split_bounded(amount: u64, treasury_bps: u64, partner_bps: u64)
    requires
        treasury_bps + partner_bps <= BPS_DENOMINATOR,
    ensures
        0 <= spec_fee(amount, treasury_bps),
        0 <= spec_fee(amount, partner_bps),
        spec_fee(amount, treasury_bps) + spec_fee(amount, partner_bps) <= amount,
{
    let a = amount as int;
    let t = treasury_bps as int;
    let p = partner_bps as int;
    let d = BPS_DENOMINATOR as int;
    lemma_fee_bounds(amount, treasury_bps);
    lemma_fee_bounds(amount, partner_bps);
    let ft = (a * t) / d;
    let fp = (a * p) / d;
    lemma_mul_nonnegative(a, t);
    lemma_mul_nonnegative(a, p);
    lemma_fundamental_div_mod(a * t, d);
    lemma_fundamental_div_mod(a * p, d);
    lemma_mod_bound(a * t, d);
    lemma_mod_bound(a * p, d);
    assert(d * ft <= a * t);
    assert(d * fp <= a * p);
    lemma_mul_is_distributive_add(a, t, p);
    lemma_mul_inequality(t + p, d, a);
    lemma_mul_is_commutative(a, t + p);
    lemma_mul_is_commutative(a, d);
    assert(a * (t + p) <= d * a);
    lemma_mul_is_distributive_add(d, ft, fp);
    assert(d * (ft + fp) <= d * a);
    if ft + fp > a {
        lemma_mul_inequality(a + 1, ft + fp, d);
        lemma_mul_is_commutative(a + 1, d);
        lemma_mul_is_commutative(ft + fp, d);
        assert(d * (a + 1) <= d * (ft + fp));
        lemma_mul_is_distributive_add(d, a, 1);
        assert(false);
    }
}

/// Exact evaluation of `spec_fee`, in 128-bit arithmetic that two 64-bit
/// factors cannot overflow.
pub fn fee_of(amount: u64, bps: u64) -> (fee: u64)
    requires
        bps <= BPS_DENOMINATOR,
    ensures
        fee == spec_fee(amount, bps),
        fee <= amount,
{
    proof {
        lemma_fee_bounds(amount, bps);
        lemma_mul_upper_bound(amount as int, u64::MAX as int, bps as int, u64::MAX as int);
    }
    let wide: u128 = (amount as u128) * (bps as u128);
    (wide / (BPS_DENOMINATOR as u128)) as u64
}

/// Exact evaluation of `spec_partner_fee`.
pub fn partner_fee_of(partner: &Option<u64>, amount: u64, bps: u64) -> (fee: u64)
    requires
        bps <= BPS_DENOMINATOR,
    ensures
        fee == spec_partner_fee(*partner, amount, bps),
        fee <= amount,
{
    if partner.is_some() {
        fee_of(amount, bps)
    } else {
        0
    }
}

} // verus!
