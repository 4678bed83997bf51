//! Opening a stake.

use vstd::prelude::*;

use crate::common::{NosanaError, Pubkey};
use crate::staking::{DURATION_MAX, DURATION_MIN, STAKE_MINIMUM, StakeAccount, xnos_value};

verus! {

/// Opens a stake: rejects a duration under the minimum or over the maximum
/// and an amount at or under the minimum, in that order, leaving the record
/// untouched; otherwise fills the record and derives its weight.
pub fn handler(
    stake: &mut StakeAccount,
    amount: u64,
    duration: u128,
    authority: Pubkey,
    vault: Pubkey,
    vault_bump: u8,
) -> (result: Result<(), NosanaError>)
    ensures
        (duration < DURATION_MIN)
            <==> result == Err::<(), NosanaError>(NosanaError::StakeDurationTooShort),
        (DURATION_MIN <= duration && duration > DURATION_MAX)
            <==> result == Err::<(), NosanaError>(NosanaError::StakeDurationTooLong),
        (DURATION_MIN <= duration <= DURATION_MAX && amount <= STAKE_MINIMUM)
            <==> result == Err::<(), NosanaError>(NosanaError::StakeAmountNotEnough),
        result is Ok <==> (DURATION_MIN <= duration <= DURATION_MAX && amount > STAKE_MINIMUM),
        result is Err ==> *final(stake) == *old(stake),
        result is Ok ==> {
            &&& final(stake).amount == amount
            &&& final(stake).authority == authority
            &&& final(stake).duration == duration
            &&& final(stake).time_unstake == 0
            &&& final(stake).vault == vault
            &&& final(stake).vault_bump == vault_bump
            &&& final(stake).xnos == xnos_value(amount as int, duration as int)
            &&& final(stake).wf()
        },
{
    if duration < DURATION_MIN {
        return Err(NosanaError::StakeDurationTooShort);
    }
    if duration > DURATION_MAX {
        return Err(NosanaError::StakeDurationTooLong);
    }
    if amount <= STAKE_MINIMUM {
        return Err(NosanaError::StakeAmountNotEnough);
    }
    stake.init(amount, authority, duration as u64, vault, vault_bump);
    Ok(())
}

} // verus!
