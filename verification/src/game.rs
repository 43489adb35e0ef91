//! The request/consume state machine over a player's game record.
//!
//! A record moves `Idle -> Requested -> Settled -> Requested -> ...`:
//! a request escrows the fixed stake, commits the guess and clears the
//! last outcome; the oracle's asynchronous callback consumes a fresh
//! randomness buffer, reduces it, pays out on a win and finalizes the
//! record. Every operation is atomic: on any error nothing changes.
//!
//! Each transition is stated once as a pure step function over plain
//! values; the executable entry points are proved to implement exactly
//! that step, and the laws about idempotency, oracle binding and the
//! win condition are proved of the step functions themselves.

use crate::authority::SignerCapability;
use crate::authority::derive_game_authority;
use crate::authority::derive_vault_authority;
use crate::escrow::deposit;
use crate::escrow::payout;
use crate::record::AMOUNT;
use crate::record::ErrorCode;
use crate::record::GameState;
use crate::record::MAX_RESULT;
use crate::record::all_zero;
use crate::record::bytes32_eq;
use crate::record::is_zero_buffer;
use crate::reducer::reduce;
use crate::reducer::reduce_spec;
use vstd::prelude::*;

verus! {

/// Inputs read when creating a player's game record: the record's own
/// derived address and nonce, and the oracle account to bind.
pub struct Initialize {
    /// Address derived for the new game record.
    pub game_state_key: [u8; 32],
    /// Derivation nonce for the record's address.
    pub bump: u8,
    /// Identity of the oracle account to bind to the record.
    pub vrf_key: [u8; 32],
    /// Authority recorded on that oracle account; must be the record's
    /// own derived address, so only this program can use the oracle.
    pub vrf_authority: [u8; 32],
}

/// Inputs read and balances touched by a randomness request.
pub struct RequestRandomness {
    /// The requesting player's identity.
    pub player_key: [u8; 32],
    /// The oracle account supplied with this call.
    pub vrf_key: [u8; 32],
    /// The player's spendable balance.
    pub player_balance: u64,
    /// The pooled vault's balance.
    pub vault_balance: u64,
}

/// Inputs read and balances touched by the oracle's settlement
/// callback.
pub struct ConsumeRandomness {
    /// The oracle account supplied with this call.
    pub vrf_key: [u8; 32],
    /// The oracle's current 256-bit result buffer.
    pub result_buffer: [u8; 32],
    /// The current ledger timestamp.
    pub now: i64,
    /// The player's spendable balance.
    pub player_balance: u64,
    /// The pooled vault's balance.
    pub vault_balance: u64,
}

/// Inputs for closing a game record and reclaiming its storage
/// deposit.
pub struct Close {
    /// The owning player's spendable balance.
    pub player_balance: u64,
    /// The storage deposit held by the record, refunded on close.
    pub storage_deposit: u64,
}

/// A randomness request as dispatched to the oracle: which oracle
/// account is to produce the result, and the program-derived
/// capability that authorizes the oracle's future callback.
#[derive(Debug)]
pub struct RandomnessRequest {
    /// The oracle account asked to produce the randomness.
    pub vrf_key: [u8; 32],
    /// Authority for the callback: the game record's own derived
    /// identity, never the player's signature.
    pub authority: SignerCapability,
}

/// The record after a fresh request: guess committed, last outcome
/// cleared back to the pending sentinel.
pub open spec fn requested(s: GameState, guess: u8) -> GameState {
    GameState { guess, result: 0, ..s }
}

/// The record after a settlement: buffer consumed, outcome and
/// timestamp written.
pub open spec fn settled(s: GameState, buffer: [u8; 32], result: u128, now: i64) -> GameState {
    GameState { result_buffer: buffer, result, timestamp: now, ..s }
}

/// One request transition over plain values: the new record and the
/// two balances, or the error that rejects the whole request.
pub open spec fn request_step(
    s: GameState,
    vrf_key: [u8; 32],
    player: u64,
    vault: u64,
    guess: u8,
) -> Result<(GameState, u64, u64), ErrorCode>
    recommends
        vault + AMOUNT <= u64::MAX,
{
    if vrf_key@ != s.vrf@ {
        Err(ErrorCode::InvalidVrfAccount)
    } else if player < AMOUNT {
        Err(ErrorCode::InsufficientFunds)
    } else {
        Ok((requested(s, guess), (player - AMOUNT) as u64, (vault + AMOUNT) as u64))
    }
}

/// One settlement transition over plain values. A not-yet-ready
/// (all-zero) buffer and a repeated buffer are successful no-ops;
/// a fresh buffer settles the record and pays double the stake
/// exactly when the reduced outcome equals the committed guess.
pub open spec fn consume_step(
    s: GameState,
    vrf_key: [u8; 32],
    buffer: [u8; 32],
    now: i64,
    player: u64,
    vault: u64,
) -> Result<(GameState, u64, u64), ErrorCode>
    recommends
        s.wf(),
        player + 2 * AMOUNT <= u64::MAX,
{
    if all_zero(buffer@) {
        Ok((s, player, vault))
    } else if vrf_key@ != s.vrf@ {
        Err(ErrorCode::InvalidVrfAccount)
    } else if buffer@ == s.result_buffer@ {
        Ok((s, player, vault))
    } else {
        let result = reduce_spec(buffer@, s.max_result);
        if result == s.guess as u128 {
            if vault < 2 * AMOUNT {
                Err(ErrorCode::VaultUnderfunded)
            } else {
                Ok(
                    (
                        settled(s, buffer, result, now),
                        (player + 2 * AMOUNT) as u64,
                        (vault - 2 * AMOUNT) as u64,
                    ),
                )
            }
        } else {
            Ok((settled(s, buffer, result, now), player, vault))
        }
    }
}

/// Creates a player's game record, bound once and for all to one
/// oracle account. Succeeds exactly when the oracle account's
/// recorded authority is the record's own derived address.
pub fn initialize(ctx: &Initialize) -> (r: Result<GameState, ErrorCode>)
    ensures
        r is Ok <==> ctx.vrf_authority@ == ctx.game_state_key@,
        r is Err ==> r == Err::<GameState, ErrorCode>(ErrorCode::InvalidVrfAuthorityError),
        r matches Ok(s) ==> {
            &&& s.guess == 0
            &&& s.bump == ctx.bump
            &&& s.max_result == MAX_RESULT
            &&& all_zero(s.result_buffer@)
            &&& s.result == 0
            &&& s.timestamp == 0
            &&& s.vrf@ == ctx.vrf_key@
            &&& s.wf()
        },
{
    if !bytes32_eq(&ctx.vrf_authority, &ctx.game_state_key) {
        return Err(ErrorCode::InvalidVrfAuthorityError);
    }
    Ok(
        GameState {
            guess: 0,
            bump: ctx.bump,
            max_result: MAX_RESULT,
            result_buffer: [0u8; 32],
            result: 0,
            timestamp: 0,
            vrf: ctx.vrf_key,
        },
    )
}

/// Escrows the fixed stake, commits the player's guess, clears the
/// last outcome, and dispatches a randomness request authorized by
/// the record's own derived identity. Implements exactly one
/// `request_step`; on any error nothing changes.
pub fn request_randomness(state: &mut GameState, ctx: &mut RequestRandomness, guess: u8) -> (r:
    Result<RandomnessRequest, ErrorCode>)
    requires
        old(ctx).vault_balance + AMOUNT <= u64::MAX,
    ensures
        ({
            let step = request_step(
                *old(state),
                old(ctx).vrf_key,
                old(ctx).player_balance,
                old(ctx).vault_balance,
                guess,
            );
            match step {
                Err(e) => {
                    &&& r == Err::<RandomnessRequest, ErrorCode>(e)
                    &&& *final(state) == *old(state)
                    &&& *final(ctx) == *old(ctx)
                },
                Ok(t) => {
                    &&& r is Ok
                    &&& *final(state) == t.0
                    &&& final(ctx).player_balance == t.1
                    &&& final(ctx).vault_balance == t.2
                    &&& final(ctx).player_key == old(ctx).player_key
                    &&& final(ctx).vrf_key == old(ctx).vrf_key
                },
            }
        }),
        r matches Ok(req) ==> {
            &&& req.vrf_key@ == old(state).vrf@
            &&& req.authority.is_game_record(old(ctx).player_key@, old(state).bump)
        },
{
    if !bytes32_eq(&ctx.vrf_key, &state.vrf) {
        return Err(ErrorCode::InvalidVrfAccount);
    }
    match deposit(&mut ctx.player_balance, &mut ctx.vault_balance, AMOUNT) {
        Err(e) => {
            return Err(e);
        },
        Ok(()) => {},
    }
    state.guess = guess;
    state.result = 0;
    let authority = derive_game_authority(&ctx.player_key, state.bump);
    Ok(RandomnessRequest { vrf_key: state.vrf, authority })
}

/// The oracle's settlement callback: consumes a fresh randomness
/// buffer, pays double the stake out of the vault exactly when the
/// reduced outcome equals the committed guess, and finalizes the
/// record. A not-yet-ready or repeated buffer is a successful no-op.
/// Implements exactly one `consume_step`; on any error nothing
/// changes.
pub fn consume_randomness(state: &mut GameState, ctx: &mut ConsumeRandomness) -> (r: Result<
    (),
    ErrorCode,
>)
    requires
        old(state).wf(),
        old(ctx).player_balance + 2 * AMOUNT <= u64::MAX,
    ensures
        ({
            let step = consume_step(
                *old(state),
                old(ctx).vrf_key,
                old(ctx).result_buffer,
                old(ctx).now,
                old(ctx).player_balance,
                old(ctx).vault_balance,
            );
            match step {
                Err(e) => {
                    &&& r == Err::<(), ErrorCode>(e)
                    &&& *final(state) == *old(state)
                    &&& *final(ctx) == *old(ctx)
                },
                Ok(t) => {
                    &&& r == Ok::<(), ErrorCode>(())
                    &&& *final(state) == t.0
                    &&& final(ctx).player_balance == t.1
                    &&& final(ctx).vault_balance == t.2
                    &&& final(ctx).vrf_key == old(ctx).vrf_key
                    &&& final(ctx).result_buffer == old(ctx).result_buffer
                    &&& final(ctx).now == old(ctx).now
                },
            }
        }),
        r is Ok ==> final(state).wf(),
{
    if is_zero_buffer(&ctx.result_buffer) {
        return Ok(());
    }
    if !bytes32_eq(&ctx.vrf_key, &state.vrf) {
        return Err(ErrorCode::InvalidVrfAccount);
    }
    if bytes32_eq(&ctx.result_buffer, &state.result_buffer) {
        return Ok(());
    }
    let result = reduce(&ctx.result_buffer, state.max_result);
    if result == state.guess as u128 {
        let authority = derive_vault_authority();
        match payout(&mut ctx.vault_balance, &mut ctx.player_balance, 2 * AMOUNT, &authority) {
            Err(e) => {
                return Err(e);
            },
            Ok(()) => {},
        }
    }
    state.result_buffer = ctx.result_buffer;
    state.result = result;
    state.timestamp = ctx.now;
    Ok(())
}

/// Closes a game record: the record is consumed and its storage
/// deposit is refunded to the owning player. The bound oracle account
/// is untouched; whatever it still holds is forfeit by design.
pub fn close(_record: GameState, ctx: &mut Close) -> (r: Result<(), ErrorCode>)
    requires
        old(ctx).player_balance + old(ctx).storage_deposit <= u64::MAX,
    ensures
        r is Ok,
        final(ctx).player_balance == old(ctx).player_balance + old(ctx).storage_deposit,
        final(ctx).storage_deposit == 0,
{
    ctx.player_balance = ctx.player_balance + ctx.storage_deposit;
    ctx.storage_deposit = 0;
    Ok(())
}

/// Idempotent settlement: once a consume of some buffer has
/// succeeded, consuming the very same buffer again — at any later
/// time — changes nothing and pays nothing.
pub proof fn lemma_consume_idempotent(
    s: GameState,
    vrf_key: [u8; 32],
    buffer: [u8; 32],
    now1: i64,
    now2: i64,
    player: u64,
    vault: u64,
    s2: GameState,
    player2: u64,
    vault2: u64,
)
    requires
        consume_step(s, vrf_key, buffer, now1, player, vault) == Ok::<
            (GameState, u64, u64),
            ErrorCode,
        >((s2, player2, vault2)),
    ensures
        consume_step(s2, vrf_key, buffer, now2, player2, vault2) == Ok::<
            (GameState, u64, u64),
            ErrorCode,
        >((s2, player2, vault2)),
{
}

/// Oracle binding at settlement: a consume that carries a non-empty
/// buffer but names an oracle account other than the bound one is
/// rejected. (With an all-zero buffer the not-yet-ready no-op answers
/// first and the binding is never examined.)
pub proof fn lemma_consume_binding_enforced(
    s: GameState,
    vrf_key: [u8; 32],
    buffer: [u8; 32],
    now: i64,
    player: u64,
    vault: u64,
)
    requires
        !all_zero(buffer@),
        vrf_key@ != s.vrf@,
    ensures
        consume_step(s, vrf_key, buffer, now, player, vault) == Err::<
            (GameState, u64, u64),
            ErrorCode,
        >(ErrorCode::InvalidVrfAccount),
{
}

/// Oracle binding at request: a request naming an oracle account
/// other than the bound one is rejected.
pub proof fn lemma_request_binding_enforced(
    s: GameState,
    vrf_key: [u8; 32],
    player: u64,
    vault: u64,
    guess: u8,
)
    requires
        vrf_key@ != s.vrf@,
    ensures
        request_step(s, vrf_key, player, vault, guess) == Err::<
            (GameState, u64, u64),
            ErrorCode,
        >(ErrorCode::InvalidVrfAccount),
{
}

/// Win condition exactness: in a successful settlement of a fresh
/// buffer, the player's balance grows by the double stake if and only
/// if the reduced outcome equals the committed guess; on a loss both
/// balances stand still.
pub proof fn lemma_win_payout_exact(
    s: GameState,
    vrf_key: [u8; 32],
    buffer: [u8; 32],
    now: i64,
    player: u64,
    vault: u64,
    s2: GameState,
    player2: u64,
    vault2: u64,
)
    requires
        player + 2 * AMOUNT <= u64::MAX,
        !all_zero(buffer@),
        buffer@ != s.result_buffer@,
        consume_step(s, vrf_key, buffer, now, player, vault) == Ok::<
            (GameState, u64, u64),
            ErrorCode,
        >((s2, player2, vault2)),
    ensures
        (reduce_spec(buffer@, s.max_result) == s.guess as u128) <==> (player2 == player + 2
            * AMOUNT && vault2 == vault - 2 * AMOUNT),
        (reduce_spec(buffer@, s.max_result) != s.guess as u128) ==> (player2 == player && vault2
            == vault),
{
}

/// Fresh-request reset: a successful request always leaves the stored
/// outcome at the pending sentinel 0, whatever it read before.
pub proof fn lemma_fresh_request_resets(
    s: GameState,
    vrf_key: [u8; 32],
    player: u64,
    vault: u64,
    guess: u8,
    s2: GameState,
    player2: u64,
    vault2: u64,
)
    requires
        request_step(s, vrf_key, player, vault, guess) == Ok::<
            (GameState, u64, u64),
            ErrorCode,
        >((s2, player2, vault2)),
    ensures
        s2.result == 0,
        s2.guess == guess,
{
}

/// Between a request and its settlement the outcome stays at 0: a
/// consume that does not settle (not-yet-ready or repeated buffer)
/// changes nothing at all, and one that does settle writes an outcome
/// in `[1, bound]` — never 0 again until the next request.
pub proof fn lemma_result_zero_until_settled(
    s: GameState,
    vrf_key: [u8; 32],
    buffer: [u8; 32],
    now: i64,
    player: u64,
    vault: u64,
    s2: GameState,
    player2: u64,
    vault2: u64,
)
    requires
        s.wf(),
        consume_step(s, vrf_key, buffer, now, player, vault) == Ok::<
            (GameState, u64, u64),
            ErrorCode,
        >((s2, player2, vault2)),
    ensures
        (all_zero(buffer@) || buffer@ == s.result_buffer@) ==> s2 == s && player2 == player
            && vault2 == vault,
        (!all_zero(buffer@) && buffer@ != s.result_buffer@) ==> 1 <= s2.result && s2.result
            <= s.max_result as u128,
{
}

/// Binding immutability: no transition ever rewrites the record's
/// bound oracle account, its derivation nonce or its reduction bound.
/// They are fixed at initialization for the record's whole lifetime.
pub proof fn lemma_binding_immutable(
    s: GameState,
    vrf_key: [u8; 32],
    buffer: [u8; 32],
    now: i64,
    player: u64,
    vault: u64,
    guess: u8,
)
    ensures
        request_step(s, vrf_key, player, vault, guess) matches Ok(t) ==> t.0.vrf == s.vrf
            && t.0.bump == s.bump && t.0.max_result == s.max_result,
        consume_step(s, vrf_key, buffer, now, player, vault) matches Ok(t) ==> t.0.vrf == s.vrf
            && t.0.bump == s.bump && t.0.max_result == s.max_result,
{
}

/// Conservation of funds: a successful transition only ever moves
/// value between the player's balance and the pooled vault; their sum
/// never changes.
pub proof fn lemma_funds_conserved(
    s: GameState,
    vrf_key: [u8; 32],
    buffer: [u8; 32],
    now: i64,
    player: u64,
    vault: u64,
    guess: u8,
)
    requires
        vault + AMOUNT <= u64::MAX,
        player + 2 * AMOUNT <= u64::MAX,
    ensures
        request_step(s, vrf_key, player, vault, guess) matches Ok(t) ==> t.1 + t.2 == player
            + vault,
        consume_step(s, vrf_key, buffer, now, player, vault) matches Ok(t) ==> t.1 + t.2 == player
            + vault,
{
}

/// Both transitions preserve the record's well-formedness.
pub proof fn lemma_wf_preserved(
    s: GameState,
    vrf_key: [u8; 32],
    buffer: [u8; 32],
    now: i64,
    player: u64,
    vault: u64,
    guess: u8,
)
    requires
        s.wf(),
    ensures
        request_step(s, vrf_key, player, vault, guess) matches Ok(t) ==> t.0.wf(),
        consume_step(s, vrf_key, buffer, now, player, vault) matches Ok(t) ==> t.0.wf(),
{
}

} // verus!
