//! Program-derived signing authority.
//!
//! The ledger runtime lets the program "sign" for addresses derived
//! from its own namespaces, with no private key involved. That power
//! is modeled as a capability token: a value that names the exact
//! derivation scope it stands for. The oracle's future callback is
//! authorized with a game-record capability, and the vault disburses
//! only under the vault capability — never under a player's own
//! signature.

use vstd::prelude::*;

verus! {

/// The derivation scope a signing capability is valid for.
#[derive(Clone, Copy, Debug)]
pub enum CapabilityScope {
    /// Authority over one player's game record: derived from the game
    /// namespace, the player's identity and the record's nonce.
    GameRecord { player: [u8; 32], bump: u8 },
    /// Authority over the pooled stake vault's namespace.
    Vault,
}

/// A program-derived signing capability, scoped to one namespace.
/// Holders can act only within that scope.
#[derive(Debug)]
pub struct SignerCapability {
    scope: CapabilityScope,
}

impl SignerCapability {
    /// The scope this capability was derived for.
    pub closed spec fn scope(self) -> CapabilityScope {
        self.scope
    }

    /// True when this capability signs for the pooled vault.
    pub open spec fn is_vault(self) -> bool {
        self.scope() is Vault
    }

    /// True when this capability signs for the given player's game
    /// record under the given derivation nonce.
    pub open spec fn is_game_record(self, player: Seq<u8>, bump: u8) -> bool {
        match self.scope() {
            CapabilityScope::GameRecord { player: p, bump: b } => p@ == player && b == bump,
            CapabilityScope::Vault => false,
        }
    }
}

/// Derives the signing capability for one player's game record.
pub fn derive_game_authority(player: &[u8; 32], bump: u8) -> (c: SignerCapability)
    ensures
        c.is_game_record(player@, bump),
{
    SignerCapability { scope: CapabilityScope::GameRecord { player: *player, bump } }
}

/// Derives the signing capability for the pooled stake vault.
pub fn derive_vault_authority() -> (c: SignerCapability)
    ensures
        c.is_vault(),
{
    SignerCapability { scope: CapabilityScope::Vault }
}

} // verus!
