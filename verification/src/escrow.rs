//! Custodial stake escrow: moving stake into the pooled vault and
//! paying winnings back out.
//!
//! Balances are the ledger's custodial lamport balances, handed in as
//! plain values. Both moves are all-or-nothing: on any error neither
//! balance changes.

use crate::authority::SignerCapability;
use crate::record::ErrorCode;
use vstd::prelude::*;

verus! {

/// Moves `amount` from a player's spendable balance into the pooled
/// vault. Fails with `InsufficientFunds` exactly when the player's
/// balance is short, and then moves nothing.
pub fn deposit(from: &mut u64, to: &mut u64, amount: u64) -> (r: Result<(), ErrorCode>)
    requires
        *old(to) + amount <= u64::MAX,
    ensures
        r is Ok <==> *old(from) >= amount,
        r is Err ==> r == Err::<(), ErrorCode>(ErrorCode::InsufficientFunds),
        r is Err ==> *final(from) == *old(from) && *final(to) == *old(to),
        r is Ok ==> *final(from) == *old(from) - amount && *final(to) == *old(to) + amount,
{
    if *from < amount {
        return Err(ErrorCode::InsufficientFunds);
    }
    *from = *from - amount;
    *to = *to + amount;
    Ok(())
}

/// Moves `amount` out of the pooled vault to a player's balance,
/// authorized by the vault's own program-derived signer. Fails with
/// `VaultUnderfunded` exactly when the pooled funds are short, and
/// then moves nothing.
pub fn payout(vault: &mut u64, to: &mut u64, amount: u64, authority: &SignerCapability) -> (r:
    Result<(), ErrorCode>)
    requires
        authority.is_vault(),
        *old(to) + amount <= u64::MAX,
    ensures
        r is Ok <==> *old(vault) >= amount,
        r is Err ==> r == Err::<(), ErrorCode>(ErrorCode::VaultUnderfunded),
        r is Err ==> *final(vault) == *old(vault) && *final(to) == *old(to),
        r is Ok ==> *final(vault) == *old(vault) - amount && *final(to) == *old(to) + amount,
{
    if *vault < amount {
        return Err(ErrorCode::VaultUnderfunded);
    }
    *vault = *vault - amount;
    *to = *to + amount;
    Ok(())
}

} // verus!
