//! The per-player game record and the shared error taxonomy.

use vstd::prelude::*;

verus! {

/// Stake moved into the vault on every request: a tenth of one SOL,
/// in lamports. A winning settlement pays back twice this amount.
pub const AMOUNT: u64 = 1_000_000_000 / 10;

/// Upper bound for the reduced game result: a coin flip, so results
/// are 1 or 2.
pub const MAX_RESULT: u64 = 2;

/// Why an operation was rejected. Every error aborts the whole
/// operation with no state change.
#[derive(Clone, Copy, Debug, PartialEq, Eq, Structural)]
pub enum ErrorCode {
    /// At initialization, the oracle account's recorded authority is not
    /// the game record's own derived address.
    InvalidVrfAuthorityError,
    /// The oracle account supplied with a call is not the one bound to
    /// the game record at initialization.
    InvalidVrfAccount,
    /// The player's spendable balance cannot cover the stake.
    InsufficientFunds,
    /// The pooled vault cannot cover a payout.
    VaultUnderfunded,
}

/// True when every byte of the sequence is zero. An all-zero oracle
/// buffer means "no randomness produced yet".
pub open spec fn all_zero(s: Seq<u8>) -> bool {
    forall|i: int| 0 <= i < s.len() ==> s[i] == 0
}

/// The persistent per-player state of one game, bound to exactly one
/// oracle account for its whole lifetime.
#[derive(Clone, Copy, Debug)]
pub struct GameState {
    /// The player's committed outcome for the in-flight request.
    pub guess: u8,
    /// Derivation nonce used to re-derive the record's own address.
    pub bump: u8,
    /// Upper bound for outcome reduction, fixed at creation.
    pub max_result: u64,
    /// Last-consumed 256-bit randomness value; all-zero until the first
    /// settlement.
    pub result_buffer: [u8; 32],
    /// Last computed outcome; 0 means "request pending, not settled".
    pub result: u128,
    /// Timestamp of the last settlement.
    pub timestamp: i64,
    /// Identity of the oracle account bound to this record at creation.
    pub vrf: [u8; 32],
}

impl GameState {
    /// Structural well-formedness: the reduction bound admits at least
    /// one outcome, and the stored result is either the pending
    /// sentinel 0 or a value the reducer can actually produce.
    pub open spec fn wf(self) -> bool {
        &&& 1 <= self.max_result
        &&& (self.result == 0 || (1 <= self.result && self.result <= self.max_result as u128))
    }
}

/// Bytewise equality of two 32-byte identifiers or buffers.
pub fn bytes32_eq(a: &[u8; 32], b: &[u8; 32]) -> (r: bool)
    ensures
        r <==> a@ == b@,
{
    let mut i: usize = 0;
    while i < 32
        invariant
            0 <= i <= 32,
            forall|j: int| 0 <= j < i ==> a@[j] == b@[j],
        decreases 32 - i,
    {
        if a[i] != b[i] {
            return false;
        }
        i = i + 1;
    }
    proof {
        assert(a@ =~= b@);
    }
    true
}

/// True when the 32-byte buffer holds only zeros.
pub fn is_zero_buffer(b: &[u8; 32]) -> (r: bool)
    ensures
        r <==> all_zero(b@),
{
    let mut i: usize = 0;
    while i < 32
        invariant
            0 <= i <= 32,
            forall|j: int| 0 <= j < i ==> b@[j] == 0,
        decreases 32 - i,
    {
        if b[i] != 0 {
            return false;
        }
        i = i + 1;
    }
    true
}

} // verus!
