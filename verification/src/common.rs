//! Shared domain values: account keys, token constants and the error type
//! every operation reports its rejections with.

use vstd::prelude::*;

verus! {

/// Smallest on-ledger quantity that represents one whole token
/// (the token uses six decimal places).
pub const NOS_DECIMALS: u64 = 1_000_000;

/// Total token supply, in raw on-ledger units.
pub const NOS_TOTAL_SUPPLY: u128 = 100_000_000 * 1_000_000;

/// A 256-bit account address, held as four 64-bit words so that verified
/// code can compare and copy it as plain values.
#[derive(Clone, Copy, Debug, PartialEq, Eq, Structural)]
pub struct Pubkey {
    pub w0: u64,
    pub w1: u64,
    pub w2: u64,
    pub w3: u64,
}

impl Pubkey {
    /// Builds a key from its four 64-bit words.
    pub fn new(w0: u64, w1: u64, w2: u64, w3: u64) -> (key: Pubkey)
        ensures
            key == (Pubkey { w0, w1, w2, w3 }),
    {
        Pubkey { w0, w1, w2, w3 }
    }
}

/// Why an operation was rejected.  A rejected operation leaves every record
/// exactly as it was: the caller may correct the input and resubmit.
#[derive(Clone, Copy, Debug, PartialEq, Eq, Structural)]
pub enum NosanaError {
    /// A stake was opened or extended with a duration under the minimum.
    StakeDurationTooShort,
    /// A stake was opened or extended past the maximum duration.
    StakeDurationTooLong,
    /// A stake was opened with an amount at or under the minimum.
    StakeAmountNotEnough,
    /// A mutation was attempted on a stake that has begun unstaking.
    StakeAlreadyUnstaked,
    /// A job key was removed from a queue that does not hold it.
    JobQueueNotFound,
}

} // verus!
