//! The reflection-based rewards ledger.
//!
//! The ledger keeps two aggregates — the total reflection issued and the
//! total weight admitted — and a derived exchange rate between them.  A
//! participant's record stores its reflection and its last reconciled
//! weight; its withdrawable amount is `reflection / rate - xnos`.  Admitting
//! a fee enlarges the weight total without issuing reflection, which lowers
//! the rate and thereby raises every participant's withdrawable amount in
//! constant time.

use vstd::prelude::*;

use crate::common::{NOS_TOTAL_SUPPLY, Pubkey};

verus! {

/// The starting exchange rate: the largest multiple-of-supply headroom the
/// 128-bit reflection total allows, so that reflections stay large numbers
/// for as long as possible while the weight total only ever grows.
pub const INITIAL_RATE: u128 = (u128::MAX - (u128::MAX % NOS_TOTAL_SUPPLY)) / NOS_TOTAL_SUPPLY;

/// A participant's withdrawable amount under a given exchange rate.
pub open spec fn reward_amount(reflection: int, xnos: int, rate: int) -> int {
    reflection / rate - xnos
}

/// The global ledger: the exchange rate and the two aggregates it is
/// derived from.
pub struct StatsAccount {
    pub bump: u8,
    pub rate: u128,
    pub total_reflection: u128,
    pub total_xnos: u128,
}

impl StatsAccount {
    /// Opens the ledger: nothing admitted yet, rate at its maximum.
    pub fn init(&mut self, bump: u8)
        ensures
            final(self).bump == bump,
            final(self).rate == INITIAL_RATE,
            final(self).total_reflection == 0,
            final(self).total_xnos == 0,
    {
        self.bump = bump;
        self.rate = INITIAL_RATE;
        self.total_reflection = 0;
        self.total_xnos = 0;
    }

    /// Admits a fee into the pool: the fee joins the weight total and the
    /// rate is rebuilt as the floor ratio of the two aggregates.  The caller
    /// guarantees at least one active participant.
    pub fn add_fee(&mut self, fee: u128)
        requires
            old(self).total_xnos > 0,
            old(self).total_xnos + fee <= u128::MAX,
        ensures
            final(self).total_xnos == old(self).total_xnos + fee,
            final(self).rate == old(self).total_reflection as int / (old(self).total_xnos + fee),
            final(self).total_reflection == old(self).total_reflection,
            final(self).bump == old(self).bump,
    {
        self.total_xnos = self.total_xnos + fee;
        self.rate = self.total_reflection / self.total_xnos;
    }

    /// Admits a participant's weight.  The issued reflection covers the
    /// admitted weight plus `reward_xnos`, a weight-denominated credit for
    /// pool growth the participant is already owed, which must not enlarge
    /// the weight total a second time.  Returns the issued reflection for
    /// the caller to store in the participant's record.
    pub fn add_rewards_account(&mut self, xnos: u128, reward_xnos: u128) -> (reflection: u128)
        requires
            xnos + reward_xnos <= u128::MAX,
            (xnos + reward_xnos) * old(self).rate <= u128::MAX,
            old(self).total_reflection + (xnos + reward_xnos) * old(self).rate <= u128::MAX,
            old(self).total_xnos + xnos <= u128::MAX,
        ensures
            reflection == (xnos + reward_xnos) * old(self).rate,
            final(self).total_reflection == old(self).total_reflection + reflection,
            final(self).total_xnos == old(self).total_xnos + xnos,
            final(self).rate == old(self).rate,
            final(self).bump == old(self).bump,
    {
        let reflection: u128 = (xnos + reward_xnos) * self.rate;
        self.total_reflection = self.total_reflection + reflection;
        self.total_xnos = self.total_xnos + xnos;
        reflection
    }

    /// Withdraws a participant's contribution from the aggregates.  The
    /// pair must be exactly the one stored for that participant: the ledger
    /// cannot detect a mismatch, it would silently corrupt the sums.
    pub fn remove_rewards_account(&mut self, reflection: u128, xnos: u128)
        requires
            xnos <= old(self).total_xnos,
            reflection <= old(self).total_reflection,
        ensures
            final(self).total_xnos == old(self).total_xnos - xnos,
            final(self).total_reflection == old(self).total_reflection - reflection,
            final(self).rate == old(self).rate,
            final(self).bump == old(self).bump,
    {
        self.total_xnos = self.total_xnos - xnos;
        self.total_reflection = self.total_reflection - reflection;
    }
}

/// A participant's slice of the pool: the reflection issued to it and the
/// weight it was last reconciled with.
pub struct RewardAccount {
    pub authority: Pubkey,
    pub bump: u8,
    pub reflection: u128,
    pub xnos: u128,
}

impl RewardAccount {
    /// Fills a fresh record with ledger-computed values.
    pub fn init(&mut self, authority: Pubkey, bump: u8, reflection: u128, tokens: u128)
        ensures
            final(self).authority == authority,
            final(self).bump == bump,
            final(self).reflection == reflection,
            final(self).xnos == tokens,
    {
        self.authority = authority;
        self.bump = bump;
        self.reflection = reflection;
        self.xnos = tokens;
    }

    /// Overwrites the record with freshly reconciled ledger values.
    pub fn update(&mut self, reflection: u128, xnos: u128)
        ensures
            final(self).reflection == reflection,
            final(self).xnos == xnos,
            final(self).authority == old(self).authority,
            final(self).bump == old(self).bump,
    {
        self.reflection = reflection;
        self.xnos = xnos;
    }

    /// The participant's current withdrawable amount under `rate`.  It grows
    /// purely as a side effect of the rate falling when fees are admitted.
    pub fn get_amount(&mut self, rate: u128) -> (amount: u128)
        requires
            rate > 0,
            old(self).xnos <= old(self).reflection as int / rate as int,
        ensures
            amount == reward_amount(
                old(self).reflection as int,
                old(self).xnos as int,
                rate as int,
            ),
            *final(self) == *old(self),
    {
        self.reflection / rate - self.xnos
    }
}

// ------------------------------------------------------------------
// The ledger aggregates as exact sums over the live records.

/// The reflection total a set of live records accounts for.
pub open spec fn sum_reflections(records: Seq<RewardAccount>) -> int
    decreases records.len(),
{
    if records.len() == 0 {
        0
    } else {
        records[0].reflection + sum_reflections(records.drop_first())
    }
}

/// The weight total a set of live records accounts for.
pub open spec fn sum_xnos(records: Seq<RewardAccount>) -> int
    decreases records.len(),
{
    if records.len() == 0 {
        0
    } else {
        records[0].xnos + sum_xnos(records.drop_first())
    }
}

/// The ledger agrees with the live records: the reflection total is their
/// exact sum, and the weight total is their exact sum plus every fee ever
/// admitted (fees join the weight total without a record of their own).
pub open spec fn in_sync(stats: StatsAccount, records: Seq<RewardAccount>, fees: int) -> bool {
    stats.total_reflection == sum_reflections(records)
    && stats.total_xnos == sum_xnos(records) + fees
}

/// Both sums split off any one record.
pub proof fn lemma_sum_remove(records: Seq<RewardAccount>, i: int)
    requires
        0 <= i < records.len(),
    ensures
        sum_reflections(records) == sum_reflections(records.remove(i)) + records[i].reflection,
        sum_xnos(records) == sum_xnos(records.remove(i)) + records[i].xnos,
    decreases i,
{
    if i == 0 {
        assert(records.remove(0) =~= records.drop_first());
    } else {
        assert(records.remove(i).drop_first() =~= records.drop_first().remove(i - 1));
        lemma_sum_remove(records.drop_first(), i - 1);
    }
}

/// Both sums grow by exactly an appended record.
pub proof fn lemma_sum_push(records: Seq<RewardAccount>, record: RewardAccount)
    ensures
        sum_reflections(records.push(record)) == sum_reflections(records) + record.reflection,
        sum_xnos(records.push(record)) == sum_xnos(records) + record.xnos,
    decreases records.len(),
{
    if records.len() == 0 {
        assert(records.push(record).drop_first() =~= Seq::<RewardAccount>::empty());
        assert(records.push(record)[0] == record);
        assert(sum_reflections(records.push(record).drop_first()) == 0);
        assert(sum_xnos(records.push(record).drop_first()) == 0);
    } else {
        assert(records.push(record)[0] == records[0]);
        assert(records.push(record).drop_first() =~= records.drop_first().push(record));
        lemma_sum_push(records.drop_first(), record);
        assert(sum_reflections(records.push(record))
            == records[0].reflection + sum_reflections(records.drop_first().push(record)));
        assert(sum_xnos(records.push(record))
            == records[0].xnos + sum_xnos(records.drop_first().push(record)));
    }
}

/// Admitting a fee keeps the ledger in sync with the records once the fee
/// is counted: no record changes, the reflection sum is untouched, and the
/// weight total grows by exactly the fee.
pub proof fn lemma_add_fee_keeps_sync(
    pre: StatsAccount,
    post: StatsAccount,
    records: Seq<RewardAccount>,
    fees: int,
    fee: u128,
)
    requires
        in_sync(pre, records, fees),
        post.total_reflection == pre.total_reflection,
        post.total_xnos == pre.total_xnos + fee,
    ensures
        in_sync(post, records, fees + fee),
{
}

/// Admitting a participant whose record stores exactly the issued
/// reflection and the admitted weight keeps the ledger in sync.
pub proof fn lemma_add_account_keeps_sync(
    pre: StatsAccount,
    post: StatsAccount,
    records: Seq<RewardAccount>,
    fees: int,
    record: RewardAccount,
)
    requires
        in_sync(pre, records, fees),
        post.total_reflection == pre.total_reflection + record.reflection,
        post.total_xnos == pre.total_xnos + record.xnos,
    ensures
        in_sync(post, records.push(record), fees),
{
    lemma_sum_push(records, record);
}

/// Withdrawing a participant's stored pair keeps the ledger in sync with
/// the remaining records.
pub proof fn lemma_remove_account_keeps_sync(
    pre: StatsAccount,
    post: StatsAccount,
    records: Seq<RewardAccount>,
    fees: int,
    i: int,
)
    requires
        in_sync(pre, records, fees),
        0 <= i < records.len(),
        post.total_reflection == pre.total_reflection - records[i].reflection,
        post.total_xnos == pre.total_xnos - records[i].xnos,
    ensures
        in_sync(post, records.remove(i), fees),
{
    lemma_sum_remove(records, i);
}

// ------------------------------------------------------------------
// Fees only ever help the participants.

/// While the rate is the floor ratio of the aggregates, admitting a fee can
/// only lower it.
pub proof fn lemma_add_fee_lowers_rate(stats: StatsAccount, fee: u128)
    requires
        stats.total_xnos > 0,
        stats.rate == stats.total_reflection as int / stats.total_xnos as int,
    ensures
        stats.total_reflection as int / (stats.total_xnos + fee) <= stats.rate,
{
    vstd::arithmetic::div_mod::lemma_div_is_ordered_by_denominator(
        stats.total_reflection as int,
        stats.total_xnos as int,
        stats.total_xnos + fee,
    );
}

/// A positive fee strictly lowers the rate whenever the fee's share of the
/// pool, valued at the current rate, outweighs the division's remainder —
/// in particular whenever `rate * fee` reaches the weight total.
pub proof fn lemma_add_fee_strictly_lowers_rate(stats: StatsAccount, fee: u128)
    requires
        stats.total_xnos > 0,
        fee > 0,
        stats.rate == stats.total_reflection as int / stats.total_xnos as int,
        stats.total_xnos <= stats.rate * fee,
    ensures
        stats.total_reflection as int / (stats.total_xnos + fee) < stats.rate,
{
    let r: int = stats.total_reflection as int;
    let x: int = stats.total_xnos as int;
    let rate: int = stats.rate as int;
    vstd::arithmetic::div_mod::lemma_fundamental_div_mod(r, x);
    vstd::arithmetic::div_mod::lemma_mod_bound(r, x);
    assert(r < x * rate + x);
    assert(r < x * rate + rate * fee);
    vstd::arithmetic::mul::lemma_mul_is_commutative(x, rate);
    vstd::arithmetic::mul::lemma_mul_is_distributive_add(rate, x, fee as int);
    assert(r < rate * (x + fee));
    vstd::arithmetic::mul::lemma_mul_is_commutative(rate, x + fee);
    vstd::arithmetic::div_mod::lemma_multiply_divide_lt(r, x + fee, rate);
}

/// A participant's withdrawable amount never falls when the rate falls: the
/// reflection balance buys at least as much at the lower rate.
pub proof fn lemma_lower_rate_raises_amount(reflection: u128, xnos: u128, r1: u128, r2: u128)
    requires
        0 < r2 <= r1,
        xnos <= reflection as int / r1 as int,
    ensures
        0 <= reward_amount(reflection as int, xnos as int, r1 as int),
        reward_amount(reflection as int, xnos as int, r1 as int)
            <= reward_amount(reflection as int, xnos as int, r2 as int),
{
    vstd::arithmetic::div_mod::lemma_div_is_ordered_by_denominator(
        reflection as int,
        r2 as int,
        r1 as int,
    );
}

/// Admitting a fee never lowers any participant's withdrawable amount:
/// while the rate is the floor ratio of the aggregates and stays positive,
/// the rebuilt rate is no higher, and every reflection balance buys at
/// least as much under it.
pub proof fn lemma_add_fee_raises_amounts(
    stats: StatsAccount,
    fee: u128,
    reflection: u128,
    xnos: u128,
)
    requires
        stats.total_xnos > 0,
        stats.rate == stats.total_reflection as int / stats.total_xnos as int,
        xnos <= reflection as int / stats.rate as int,
    ensures
        stats.total_reflection as int / (stats.total_xnos + fee) <= stats.rate,
        stats.total_reflection as int / (stats.total_xnos + fee) > 0
            ==> reward_amount(reflection as int, xnos as int, stats.rate as int)
                <= reward_amount(
                    reflection as int,
                    xnos as int,
                    stats.total_reflection as int / (stats.total_xnos + fee),
                ),
{
    lemma_add_fee_lowers_rate(stats, fee);
    let new_rate: int = stats.total_reflection as int / (stats.total_xnos + fee);
    if new_rate > 0 {
        vstd::arithmetic::div_mod::lemma_div_is_ordered_by_denominator(
            reflection as int,
            new_rate,
            stats.rate as int,
        );
    }
}

/// A participant's withdrawable amount strictly grows under a strictly
/// lower rate once its reflection balance is large enough: the balance must
/// outweigh the product of the two rates divided by their gap.
pub proof fn lemma_lower_rate_strictly_raises_amount(
    reflection: u128,
    xnos: u128,
    r1: u128,
    r2: u128,
)
    requires
        0 < r2 < r1,
        xnos <= reflection as int / r1 as int,
        reflection * (r1 - r2) >= r1 * r2,
    ensures
        reward_amount(reflection as int, xnos as int, r1 as int)
            < reward_amount(reflection as int, xnos as int, r2 as int),
{
    let refl: int = reflection as int;
    let q: int = refl / r1 as int;
    vstd::arithmetic::div_mod::lemma_fundamental_div_mod(refl, r1 as int);
    vstd::arithmetic::div_mod::lemma_mod_bound(refl, r1 as int);
    vstd::arithmetic::mul::lemma_mul_is_commutative(r1 as int, q);
    assert(q * r1 <= refl);
    assert((q + 1) * r2 <= refl) by (nonlinear_arith)
        requires
            q * r1 <= refl,
            refl * (r1 - r2) >= r1 * r2,
            0 < r2 < r1,
    ;
    vstd::arithmetic::div_mod::lemma_div_is_ordered((q + 1) * r2, refl, r2 as int);
    vstd::arithmetic::div_mod::lemma_div_by_multiple(q + 1, r2 as int);
    assert(refl / r2 as int >= q + 1);
}

// ------------------------------------------------------------------
// Removing and immediately re-adding a contribution is a no-op.

/// Withdrawing a participant whose reflection is current — worth exactly
/// its weight at the present rate, up to the sub-rate remainder — and
/// re-admitting the same weight with no credit reissues `xnos * rate`: the
/// weight total is restored exactly, the reflection total only sheds the
/// remainder (less than one rate unit, so less than one weight unit of
/// value), and the participant's withdrawable amount is unchanged at zero.
pub proof fn lemma_remove_then_add_round_trip(stats: StatsAccount, reflection: u128, xnos: u128)
    requires
        reflection <= stats.total_reflection,
        xnos <= stats.total_xnos,
        0 < stats.rate,
        xnos * stats.rate <= reflection,
        reflection < (xnos + 1) * stats.rate,
    ensures
        stats.total_xnos - xnos + xnos == stats.total_xnos,
        stats.total_reflection - reflection + xnos * stats.rate <= stats.total_reflection,
        stats.total_reflection - (stats.total_reflection - reflection + xnos * stats.rate)
            < stats.rate,
        reward_amount(reflection as int, xnos as int, stats.rate as int) == 0,
        reward_amount(xnos * stats.rate, xnos as int, stats.rate as int) == 0,
{
    let rate: int = stats.rate as int;
    let x: int = xnos as int;
    vstd::arithmetic::mul::lemma_mul_is_distributive_add_other_way(rate, x, 1);
    vstd::arithmetic::mul::lemma_mul_basics(rate);
    vstd::arithmetic::div_mod::lemma_fundamental_div_mod_converse(
        reflection as int,
        rate,
        x,
        reflection - x * rate,
    );
    vstd::arithmetic::div_mod::lemma_div_by_multiple(x, rate);
}

/// Reconciling a participant at an unchanged weight, crediting exactly the
/// pending amount, reissues `(reflection / rate) * rate`: at most the old
/// reflection, short of it by less than one rate unit, and the withdrawable
/// amount afterwards is exactly the amount before.
pub proof fn lemma_reconcile_keeps_amount(reflection: u128, xnos: u128, rate: u128)
    requires
        0 < rate,
        xnos <= reflection as int / rate as int,
    ensures
        (xnos + reward_amount(reflection as int, xnos as int, rate as int)) * rate
            <= reflection,
        reflection - (xnos + reward_amount(reflection as int, xnos as int, rate as int)) * rate
            < rate,
        reward_amount(
            (xnos + reward_amount(reflection as int, xnos as int, rate as int)) * rate,
            xnos as int,
            rate as int,
        ) == reward_amount(reflection as int, xnos as int, rate as int),
{
    let refl: int = reflection as int;
    let r: int = rate as int;
    let q: int = refl / r;
    assert(xnos + reward_amount(refl, xnos as int, r) == q);
    vstd::arithmetic::div_mod::lemma_fundamental_div_mod(refl, r);
    vstd::arithmetic::div_mod::lemma_mod_bound(refl, r);
    vstd::arithmetic::mul::lemma_mul_is_commutative(r, q);
    assert(q * r <= refl);
    assert(refl - q * r < r);
    vstd::arithmetic::div_mod::lemma_div_by_multiple(q, r);
    assert((q * r) / r == q);
}

} // verus!
