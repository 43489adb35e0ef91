//! An on-chain coin-flip game settled by a verifiable-random-function (VRF)
//! oracle. A player stakes a fixed amount, commits a guess, and an
//! asynchronous callback later consumes the oracle's 256-bit random buffer,
//! reduces it to a bounded result, and pays out on a win.
//!
//! The library is the verified core: the per-player game record and its
//! invariants, the deterministic randomness reduction, the pooled stake
//! vault's escrow rules, and the request/consume state machine with its
//! oracle-binding and idempotency checks. The surrounding ledger runtime
//! (account storage, value transfer, signing) is modeled as plain values
//! handed in and out of these functions.

mod authority;
mod codec;
mod escrow;
mod game;
mod record;
mod reducer;

pub use authority::CapabilityScope;
pub use authority::SignerCapability;
pub use authority::derive_game_authority;
pub use authority::derive_vault_authority;
pub use escrow::deposit;
pub use escrow::payout;
pub use codec::RECORD_LEN;
pub use codec::RECORD_TAG;
pub use codec::decode;
pub use codec::encode;
pub use codec::encoded;
pub use codec::i64_bits;
pub use codec::i64_of_bits;
pub use codec::lemma_encoded_injective;
pub use codec::lemma_encoded_len;
pub use codec::lemma_i64_bits_roundtrip;
pub use game::Close;
pub use game::ConsumeRandomness;
pub use game::Initialize;
pub use game::RandomnessRequest;
pub use game::RequestRandomness;
pub use game::close;
pub use game::consume_randomness;
pub use game::consume_step;
pub use game::initialize;
pub use game::lemma_binding_immutable;
pub use game::lemma_consume_binding_enforced;
pub use game::lemma_consume_idempotent;
pub use game::lemma_fresh_request_resets;
pub use game::lemma_funds_conserved;
pub use game::lemma_request_binding_enforced;
pub use game::lemma_result_zero_until_settled;
pub use game::lemma_wf_preserved;
pub use game::lemma_win_payout_exact;
pub use game::request_randomness;
pub use game::request_step;
pub use game::requested;
pub use game::settled;
pub use record::AMOUNT;
pub use record::ErrorCode;
pub use record::GameState;
pub use record::MAX_RESULT;
pub use record::all_zero;
pub use record::bytes32_eq;
pub use record::is_zero_buffer;
pub use reducer::lemma_reduce_deterministic;
pub use reducer::lemma_reduce_range;
pub use reducer::low_u128;
pub use reducer::reduce;
pub use reducer::reduce_spec;
