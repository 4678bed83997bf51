//! Lengthening a stake's duration.

use vstd::prelude::*;

use crate::common::NosanaError;
use crate::staking::{DURATION_MAX, StakeAccount, xnos_value};

verus! {

/// Lengthens an active stake: rejects an unstaking record, a zero
/// extension, and a total duration over the maximum, in that order, leaving
/// the record untouched; otherwise extends it and rederives its weight.
pub fn handler(stake: &mut StakeAccount, duration: u64) -> (result: Result<(), NosanaError>)
    ensures
        (old(stake).time_unstake != 0)
            <==> result == Err::<(), NosanaError>(NosanaError::StakeAlreadyUnstaked),
        (old(stake).time_unstake == 0 && duration == 0)
            <==> result == Err::<(), NosanaError>(NosanaError::StakeDurationTooShort),
        (old(stake).time_unstake == 0 && duration > 0
            && old(stake).duration + duration > DURATION_MAX)
            <==> result == Err::<(), NosanaError>(NosanaError::StakeDurationTooLong),
        result is Ok <==> (old(stake).time_unstake == 0 && duration > 0
            && old(stake).duration + duration <= DURATION_MAX),
        result is Err ==> *final(stake) == *old(stake),
        result is Ok ==> {
            &&& final(stake).duration == old(stake).duration + duration
            &&& final(stake).xnos == xnos_value(
                old(stake).amount as int,
                old(stake).duration + duration,
            )
            &&& final(stake).amount == old(stake).amount
            &&& final(stake).authority == old(stake).authority
            &&& final(stake).time_unstake == 0
            &&& final(stake).vault == old(stake).vault
            &&& final(stake).vault_bump == old(stake).vault_bump
            &&& final(stake).wf()
        },
{
    if stake.time_unstake != 0 {
        return Err(NosanaError::StakeAlreadyUnstaked);
    }
    if duration == 0 {
        return Err(NosanaError::StakeDurationTooShort);
    }
    if (stake.duration as u128) + (duration as u128) > DURATION_MAX {
        return Err(NosanaError::StakeDurationTooLong);
    }
    stake.extend(duration);
    Ok(())
}

} // verus!
