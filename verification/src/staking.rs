//! Stake records and the stake-weight ("xnos") derivation.
//!
//! A stake commits `amount` token units for `duration` seconds and earns a
//! dimensionless weight on the reward pool.  The weight follows a bonding
//! curve: the multiplier on `amount` grows by a quarter for every elapsed
//! third of the maximum duration, reaching four times `amount` at the
//! maximum.  A stake that has begun unstaking carries no weight at all.

use vstd::prelude::*;

use crate::common::{NOS_DECIMALS, Pubkey};

verus! {

/// Smallest stake amount; openings at or under it are rejected.
pub const STAKE_MINIMUM: u64 = NOS_DECIMALS;

pub const SECONDS_PER_DAY: u128 = 24 * 60 * 60;

/// Shortest allowed stake duration: two weeks.
pub const DURATION_MIN: u128 = 14 * SECONDS_PER_DAY;

/// Longest allowed stake duration: one year.
pub const DURATION_MAX: u128 = 365 * SECONDS_PER_DAY;

/// Fixed-point precision of the duration multiplier.
pub const XNOS_PRECISION: u128 = 1_000_000_000_000_000;

/// Duration normalizer: one third of the maximum duration, so that the
/// multiplier grows by a quarter per month and the maximum duration
/// contributes a fourfold multiplier.
pub const XNOS_DIV: u128 = 4 * DURATION_MAX / 12;

/// The duration multiplier, scaled by `XNOS_PRECISION`: one whole unit plus
/// `duration / XNOS_DIV` fixed-point units of bonus.
pub open spec fn xnos_multiplier(duration: int) -> int {
    duration * XNOS_PRECISION / (XNOS_DIV as int) + XNOS_PRECISION
}

/// The reward weight of an active stake of `amount` tokens over `duration`
/// seconds: the duration multiplier applied to the amount.
pub open spec fn xnos_value(amount: int, duration: int) -> int {
    xnos_multiplier(duration) * amount / (XNOS_PRECISION as int)
}

/// The reward weight of any stake: an unstaking position weighs nothing.
pub open spec fn stake_xnos(amount: int, duration: int, unstaking: bool) -> int {
    if unstaking {
        0
    } else {
        xnos_value(amount, duration)
    }
}

/// The staking configuration: who may slash, and into which token account
/// slashed collateral is paid.
pub struct SettingsAccount {
    pub authority: Pubkey,
    pub token_account: Pubkey,
}

impl SettingsAccount {
    /// Replaces both settings.
    pub fn set(&mut self, authority: Pubkey, token_account: Pubkey)
        ensures
            final(self).authority == authority,
            final(self).token_account == token_account,
    {
        self.authority = authority;
        self.token_account = token_account;
    }
}

/// One participant's stake: the committed amount, the chosen duration, the
/// moment unstaking began (0 while the stake is active) and the derived
/// reward weight, which mirrors `stake_xnos` at all times.
pub struct StakeAccount {
    pub amount: u64,
    pub authority: Pubkey,
    pub duration: u64,
    pub time_unstake: i64,
    pub vault: Pubkey,
    pub vault_bump: u8,
    pub xnos: u128,
}

impl StakeAccount {
    /// The record's invariant: the duration stays within the allowed bound
    /// and the stored weight is exactly the derived one.
    pub open spec fn wf(self) -> bool {
        self.duration <= DURATION_MAX
        && self.xnos == stake_xnos(
            self.amount as int,
            self.duration as int,
            self.time_unstake != 0,
        )
    }

    /// Fills a fresh record and derives its weight.  Bound checks on the
    /// amount and the duration belong to the opening instruction.
    pub fn init(
        &mut self,
        amount: u64,
        authority: Pubkey,
        duration: u64,
        vault: Pubkey,
        vault_bump: u8,
    )
        requires
            duration <= DURATION_MAX,
        ensures
            final(self).amount == amount,
            final(self).authority == authority,
            final(self).duration == duration,
            final(self).time_unstake == 0,
            final(self).vault == vault,
            final(self).vault_bump == vault_bump,
            final(self).xnos == xnos_value(amount as int, duration as int),
            final(self).wf(),
    {
        self.amount = amount;
        self.authority = authority;
        self.duration = duration;
        self.time_unstake = 0;
        self.vault = vault;
        self.vault_bump = vault_bump;
        self.update_xnos();
    }

    /// Marks the stake as unstaking from `time` on; its weight collapses to
    /// zero at once, so the position stops accruing rewards.
    pub fn unstake(&mut self, time: i64)
        requires
            old(self).time_unstake == 0,
            time != 0,
        ensures
            final(self).time_unstake == time,
            final(self).xnos == 0,
            final(self).amount == old(self).amount,
            final(self).authority == old(self).authority,
            final(self).duration == old(self).duration,
            final(self).vault == old(self).vault,
            final(self).vault_bump == old(self).vault_bump,
            old(self).duration <= DURATION_MAX ==> final(self).wf(),
    {
        self.time_unstake = time;
        self.update_xnos();
    }

    /// Adds tokens to an active stake and rederives its weight.
    pub fn topup(&mut self, amount: u64)
        requires
            old(self).time_unstake == 0,
            old(self).duration <= DURATION_MAX,
            old(self).amount + amount <= u64::MAX,
        ensures
            final(self).amount == old(self).amount + amount,
            final(self).xnos == xnos_value(
                old(self).amount + amount,
                old(self).duration as int,
            ),
            final(self).authority == old(self).authority,
            final(self).duration == old(self).duration,
            final(self).time_unstake == 0,
            final(self).vault == old(self).vault,
            final(self).vault_bump == old(self).vault_bump,
            final(self).wf(),
    {
        self.amount = self.amount + amount;
        self.update_xnos();
    }

    /// Takes tokens away from an active stake and rederives its weight.
    pub fn slash(&mut self, amount: u64)
        requires
            old(self).time_unstake == 0,
            old(self).duration <= DURATION_MAX,
            amount <= old(self).amount,
        ensures
            final(self).amount == old(self).amount - amount,
            final(self).xnos == xnos_value(
                old(self).amount - amount,
                old(self).duration as int,
            ),
            final(self).authority == old(self).authority,
            final(self).duration == old(self).duration,
            final(self).time_unstake == 0,
            final(self).vault == old(self).vault,
            final(self).vault_bump == old(self).vault_bump,
            final(self).wf(),
    {
        self.amount = self.amount - amount;
        self.update_xnos();
    }

    /// Lengthens an active stake's duration and rederives its weight.  The
    /// bound check against the maximum belongs to the extending instruction.
    pub fn extend(&mut self, duration: u64)
        requires
            old(self).time_unstake == 0,
            old(self).duration + duration <= DURATION_MAX,
        ensures
            final(self).duration == old(self).duration + duration,
            final(self).xnos == xnos_value(
                old(self).amount as int,
                old(self).duration + duration,
            ),
            final(self).amount == old(self).amount,
            final(self).authority == old(self).authority,
            final(self).time_unstake == 0,
            final(self).vault == old(self).vault,
            final(self).vault_bump == old(self).vault_bump,
            final(self).wf(),
    {
        self.duration = self.duration + duration;
        self.update_xnos();
    }

    /// Rederives the stored weight from the current fields.
    fn update_xnos(&mut self)
        requires
            old(self).time_unstake == 0 ==> old(self).duration <= DURATION_MAX,
        ensures
            final(self).xnos == stake_xnos(
                old(self).amount as int,
                old(self).duration as int,
                old(self).time_unstake != 0,
            ),
            final(self).amount == old(self).amount,
            final(self).authority == old(self).authority,
            final(self).duration == old(self).duration,
            final(self).time_unstake == old(self).time_unstake,
            final(self).vault == old(self).vault,
            final(self).vault_bump == old(self).vault_bump,
    {
        if self.time_unstake != 0 {
            self.xnos = 0;
        } else {
            proof {
                lemma_multiplier_bounds(self.duration as int);
            }
            let multiplier: u128 =
                (self.duration as u128) * XNOS_PRECISION / XNOS_DIV + XNOS_PRECISION;
            proof {
                vstd::arithmetic::mul::lemma_mul_upper_bound(
                    multiplier as int,
                    4 * XNOS_PRECISION,
                    self.amount as int,
                    u64::MAX as int,
                );
            }
            self.xnos = multiplier * (self.amount as u128) / XNOS_PRECISION;
        }
    }
}

/// The multiplier of a duration within the allowed bound lies between one
/// whole unit and four whole units.
pub proof fn lemma_multiplier_bounds(duration: int)
    requires
        0 <= duration <= DURATION_MAX,
    ensures
        0 <= duration * XNOS_PRECISION <= DURATION_MAX * XNOS_PRECISION,
        0 <= duration * XNOS_PRECISION / (XNOS_DIV as int) <= 3 * XNOS_PRECISION,
        XNOS_PRECISION <= xnos_multiplier(duration) <= 4 * XNOS_PRECISION,
{
    vstd::arithmetic::mul::lemma_mul_nonnegative(duration, XNOS_PRECISION as int);
    vstd::arithmetic::mul::lemma_mul_inequality(
        duration,
        DURATION_MAX as int,
        XNOS_PRECISION as int,
    );
    vstd::arithmetic::div_mod::lemma_div_pos_is_pos(
        duration * XNOS_PRECISION,
        XNOS_DIV as int,
    );
    vstd::arithmetic::div_mod::lemma_div_is_ordered(
        duration * XNOS_PRECISION,
        DURATION_MAX * XNOS_PRECISION,
        XNOS_DIV as int,
    );
    assert(DURATION_MAX * XNOS_PRECISION == (XNOS_DIV as int) * (3 * XNOS_PRECISION))
        by (nonlinear_arith)
        requires
            DURATION_MAX == 31_536_000,
            XNOS_PRECISION == 1_000_000_000_000_000,
            XNOS_DIV == 10_512_000,
    ;
    vstd::arithmetic::div_mod::lemma_div_multiples_vanish(
        3 * (XNOS_PRECISION as int),
        XNOS_DIV as int,
    );
    assert(DURATION_MAX * XNOS_PRECISION / (XNOS_DIV as int) == 3 * XNOS_PRECISION);
}

/// An unstaking position carries no reward weight, whatever its amount and
/// duration.
pub proof fn lemma_xnos_zero_when_unstaking(amount: int, duration: int)
    ensures
        stake_xnos(amount, duration, true) == 0,
{
}

/// The weight of an active stake grows strictly with its amount: with the
/// duration held fixed, any additional token raises the weight.
pub proof fn lemma_xnos_strict_in_amount(a1: u64, a2: u64, duration: u64)
    requires
        a1 < a2,
    ensures
        xnos_value(a1 as int, duration as int) < xnos_value(a2 as int, duration as int),
{
    let p: int = XNOS_PRECISION as int;
    let k: int = xnos_multiplier(duration as int);
    vstd::arithmetic::mul::lemma_mul_nonnegative(duration as int, p);
    vstd::arithmetic::div_mod::lemma_div_pos_is_pos(
        duration * XNOS_PRECISION,
        XNOS_DIV as int,
    );
    assert(k >= p);
    vstd::arithmetic::mul::lemma_mul_left_inequality(k, a1 + 1, a2 as int);
    vstd::arithmetic::mul::lemma_mul_is_distributive_add(k, a1 as int, 1);
    vstd::arithmetic::mul::lemma_mul_basics(k);
    assert(k * a2 >= k * a1 + p);
    vstd::arithmetic::div_mod::lemma_div_plus_one(k * a1, p);
    vstd::arithmetic::div_mod::lemma_div_is_ordered(k * a1 + p, k * a2, p);
    assert(k * a1 / p < k * a2 / p);
}

/// The weight of an active stake never shrinks when its duration grows.
pub proof fn lemma_xnos_monotone_in_duration(amount: u64, d1: u64, d2: u64)
    requires
        d1 <= d2,
    ensures
        xnos_value(amount as int, d1 as int) <= xnos_value(amount as int, d2 as int),
{
    let p: int = XNOS_PRECISION as int;
    let dv: int = XNOS_DIV as int;
    vstd::arithmetic::mul::lemma_mul_inequality(d1 as int, d2 as int, p);
    vstd::arithmetic::div_mod::lemma_div_is_ordered(d1 * XNOS_PRECISION, d2 * XNOS_PRECISION, dv);
    let k1: int = xnos_multiplier(d1 as int);
    let k2: int = xnos_multiplier(d2 as int);
    assert(k1 <= k2);
    vstd::arithmetic::mul::lemma_mul_inequality(k1, k2, amount as int);
    vstd::arithmetic::div_mod::lemma_div_is_ordered(k1 * amount, k2 * amount, p);
}

/// The weight of an active stake grows strictly with its duration, as long
/// as the amount exceeds the duration normalizer: each additional second
/// then contributes enough fixed-point bonus to survive the final rounding.
/// (For smaller amounts the growth is only weak: one second's bonus can be
/// rounded away entirely.)
pub proof fn lemma_xnos_strict_in_duration(amount: u64, d1: u64, d2: u64)
    requires
        XNOS_DIV < amount,
        d1 < d2,
    ensures
        xnos_value(amount as int, d1 as int) < xnos_value(amount as int, d2 as int),
{
    let p: int = XNOS_PRECISION as int;
    let dv: int = XNOS_DIV as int;
    let a: int = amount as int;
    // Pin down the quotient and remainder of the precision by the normalizer.
    let q: int = 95_129_375;
    let r: int = 10_000_000;
    assert(p == q * dv + r) by (nonlinear_arith)
        requires
            p == 1_000_000_000_000_000,
            dv == 10_512_000,
            q == 95_129_375,
            r == 10_000_000,
    ;
    vstd::arithmetic::div_mod::lemma_fundamental_div_mod_converse(p, dv, q, r);
    // One more second raises the scaled multiplier by at least q.
    let m1: int = d1 * XNOS_PRECISION / dv;
    let m2: int = d2 * XNOS_PRECISION / dv;
    vstd::arithmetic::mul::lemma_mul_inequality(d1 + 1, d2 as int, p);
    vstd::arithmetic::mul::lemma_mul_is_distributive_add_other_way(p, d1 as int, 1);
    vstd::arithmetic::mul::lemma_mul_basics(p);
    assert(d1 * p + p <= d2 * p);
    vstd::arithmetic::div_mod::lemma_hoist_over_denominator(d1 * XNOS_PRECISION, q, XNOS_DIV as nat);
    assert(q * dv <= p);
    vstd::arithmetic::div_mod::lemma_div_is_ordered(d1 * p + q * dv, d2 * p, dv);
    assert(m1 + q <= m2);
    // Applied to an amount above the normalizer, that bonus clears one whole
    // precision unit, so the division by the precision must step up.
    let k1: int = xnos_multiplier(d1 as int);
    let k2: int = xnos_multiplier(d2 as int);
    vstd::arithmetic::mul::lemma_mul_inequality(k1 + q, k2, a);
    vstd::arithmetic::mul::lemma_mul_is_distributive_add_other_way(a, k1, q);
    vstd::arithmetic::mul::lemma_mul_left_inequality(q, dv + 1, a);
    vstd::arithmetic::mul::lemma_mul_is_distributive_add(q, dv, 1);
    vstd::arithmetic::mul::lemma_mul_basics(q);
    assert(q * a >= q * dv + q);
    assert(q * a >= p);
    assert(k2 * a >= k1 * a + p);
    vstd::arithmetic::div_mod::lemma_div_plus_one(k1 * a, p);
    vstd::arithmetic::div_mod::lemma_div_is_ordered(k1 * a + p, k2 * a, p);
    assert(k1 * a / p < k2 * a / p);
}

} // verus!
