use vrf_flip::AMOUNT;
use vrf_flip::Close;
use vrf_flip::ConsumeRandomness;
use vrf_flip::ErrorCode;
use vrf_flip::GameState;
use vrf_flip::Initialize;
use vrf_flip::MAX_RESULT;
use vrf_flip::RequestRandomness;
use vrf_flip::close;
use vrf_flip::consume_randomness;
use vrf_flip::initialize;
use vrf_flip::request_randomness;

const PLAYER: [u8; 32] = [0x11; 32];
const GAME_KEY: [u8; 32] = [0x22; 32];
const VRF_KEY: [u8; 32] = [0x33; 32];

fn fresh_state() -> GameState {
    let ctx = Initialize {
        game_state_key: GAME_KEY,
        bump: 254,
        vrf_key: VRF_KEY,
        vrf_authority: GAME_KEY,
    };
    initialize(&ctx).unwrap()
}

fn buffer_with_low_bytes(low: &[u8]) -> [u8; 32] {
    let mut b = [0u8; 32];
    b[..low.len()].copy_from_slice(low);
    b
}

// A buffer that is not all zero but whose low 128 bits are zero, so it
// reduces to 1 under any bound.
fn nonzero_buffer_reducing_to_one() -> [u8; 32] {
    let mut b = [0u8; 32];
    b[20] = 0x5a;
    b
}

fn consume_ctx(buffer: [u8; 32], player_balance: u64, vault_balance: u64) -> ConsumeRandomness {
    ConsumeRandomness { vrf_key: VRF_KEY, result_buffer: buffer, now: 1700000000, player_balance, vault_balance }
}

#[test]
fn initialize_binds_oracle_and_zeroes_state() {
    let s = fresh_state();
    assert_eq!(s.guess, 0);
    assert_eq!(s.bump, 254);
    assert_eq!(s.max_result, MAX_RESULT);
    assert_eq!(s.result_buffer, [0u8; 32]);
    assert_eq!(s.result, 0);
    assert_eq!(s.timestamp, 0);
    assert_eq!(s.vrf, VRF_KEY);
}

#[test]
fn initialize_rejects_foreign_authority() {
    let ctx = Initialize {
        game_state_key: GAME_KEY,
        bump: 254,
        vrf_key: VRF_KEY,
        vrf_authority: [0x44; 32],
    };
    assert_eq!(initialize(&ctx).unwrap_err(), ErrorCode::InvalidVrfAuthorityError);
}

#[test]
fn request_escrows_stake_and_resets_result() {
    let mut s = fresh_state();
    s.result = 2;
    let mut ctx = RequestRandomness {
        player_key: PLAYER,
        vrf_key: VRF_KEY,
        player_balance: 10 * AMOUNT,
        vault_balance: 0,
    };
    let req = request_randomness(&mut s, &mut ctx, 1).unwrap();
    assert_eq!(req.vrf_key, VRF_KEY);
    assert_eq!(s.guess, 1);
    assert_eq!(s.result, 0);
    assert_eq!(ctx.player_balance, 9 * AMOUNT);
    assert_eq!(ctx.vault_balance, AMOUNT);
}

#[test]
fn request_rejects_unbound_oracle() {
    let mut s = fresh_state();
    let mut ctx = RequestRandomness {
        player_key: PLAYER,
        vrf_key: [0x44; 32],
        player_balance: 10 * AMOUNT,
        vault_balance: 0,
    };
    let err = request_randomness(&mut s, &mut ctx, 1).unwrap_err();
    assert_eq!(err, ErrorCode::InvalidVrfAccount);
    assert_eq!(s.guess, 0);
    assert_eq!(s.result, 0);
    assert_eq!(ctx.player_balance, 10 * AMOUNT);
    assert_eq!(ctx.vault_balance, 0);
}

#[test]
fn request_rejects_short_balance() {
    let mut s = fresh_state();
    let mut ctx = RequestRandomness {
        player_key: PLAYER,
        vrf_key: VRF_KEY,
        player_balance: AMOUNT - 1,
        vault_balance: 7,
    };
    let err = request_randomness(&mut s, &mut ctx, 2).unwrap_err();
    assert_eq!(err, ErrorCode::InsufficientFunds);
    assert_eq!(ctx.player_balance, AMOUNT - 1);
    assert_eq!(ctx.vault_balance, 7);
    assert_eq!(s.guess, 0);
}

#[test]
fn winning_guess_pays_double_stake() {
    let mut s = fresh_state();
    s.guess = 1;
    let buffer = nonzero_buffer_reducing_to_one();
    let mut ctx = consume_ctx(buffer, 1_000, 10 * AMOUNT);
    consume_randomness(&mut s, &mut ctx).unwrap();
    assert_eq!(ctx.player_balance, 1_000 + 2 * AMOUNT);
    assert_eq!(ctx.vault_balance, 8 * AMOUNT);
    assert_eq!(s.result, 1);
    assert_eq!(s.result_buffer, buffer);
    assert_eq!(s.timestamp, 1700000000);
}

#[test]
fn losing_guess_still_settles_without_payout() {
    let mut s = fresh_state();
    s.guess = 2;
    let buffer = nonzero_buffer_reducing_to_one();
    let mut ctx = consume_ctx(buffer, 1_000, 10 * AMOUNT);
    consume_randomness(&mut s, &mut ctx).unwrap();
    assert_eq!(ctx.player_balance, 1_000);
    assert_eq!(ctx.vault_balance, 10 * AMOUNT);
    assert_eq!(s.result, 1);
    assert_eq!(s.result_buffer, buffer);
}

#[test]
fn empty_buffer_is_a_successful_no_op() {
    let mut s = fresh_state();
    s.guess = 1;
    let mut ctx = consume_ctx([0u8; 32], 1_000, 10 * AMOUNT);
    consume_randomness(&mut s, &mut ctx).unwrap();
    assert_eq!(ctx.player_balance, 1_000);
    assert_eq!(ctx.vault_balance, 10 * AMOUNT);
    assert_eq!(s.result, 0);
    assert_eq!(s.result_buffer, [0u8; 32]);
    assert_eq!(s.timestamp, 0);
}

#[test]
fn repeated_buffer_never_double_pays() {
    let mut s = fresh_state();
    s.guess = 1;
    let buffer = nonzero_buffer_reducing_to_one();
    let mut ctx = consume_ctx(buffer, 1_000, 10 * AMOUNT);
    consume_randomness(&mut s, &mut ctx).unwrap();
    let player_after_first = ctx.player_balance;
    let vault_after_first = ctx.vault_balance;
    ctx.now = 1700000999;
    consume_randomness(&mut s, &mut ctx).unwrap();
    assert_eq!(ctx.player_balance, player_after_first);
    assert_eq!(ctx.vault_balance, vault_after_first);
    assert_eq!(s.result, 1);
    assert_eq!(s.timestamp, 1700000000);
}

#[test]
fn consume_rejects_unbound_oracle() {
    let mut s = fresh_state();
    s.guess = 1;
    let buffer = nonzero_buffer_reducing_to_one();
    let mut ctx = consume_ctx(buffer, 1_000, 10 * AMOUNT);
    ctx.vrf_key = [0x44; 32];
    let err = consume_randomness(&mut s, &mut ctx).unwrap_err();
    assert_eq!(err, ErrorCode::InvalidVrfAccount);
    assert_eq!(ctx.player_balance, 1_000);
    assert_eq!(ctx.vault_balance, 10 * AMOUNT);
    assert_eq!(s.result, 0);
    assert_eq!(s.result_buffer, [0u8; 32]);
}

#[test]
fn underfunded_vault_aborts_settlement() {
    let mut s = fresh_state();
    s.guess = 1;
    let buffer = nonzero_buffer_reducing_to_one();
    let mut ctx = consume_ctx(buffer, 1_000, 2 * AMOUNT - 1);
    let err = consume_randomness(&mut s, &mut ctx).unwrap_err();
    assert_eq!(err, ErrorCode::VaultUnderfunded);
    assert_eq!(ctx.player_balance, 1_000);
    assert_eq!(ctx.vault_balance, 2 * AMOUNT - 1);
    assert_eq!(s.result, 0);
    assert_eq!(s.result_buffer, [0u8; 32]);
}

#[test]
fn new_buffer_settles_again_after_previous_settlement() {
    let mut s = fresh_state();
    s.guess = 1;
    let first = nonzero_buffer_reducing_to_one();
    let mut ctx = consume_ctx(first, 1_000, 10 * AMOUNT);
    consume_randomness(&mut s, &mut ctx).unwrap();
    assert_eq!(s.result, 1);
    // A genuinely new buffer (low byte 1 reduces to 2) settles anew.
    let mut second = buffer_with_low_bytes(&[1]);
    second[20] = 0x5a;
    ctx.result_buffer = second;
    ctx.now = 1700001234;
    consume_randomness(&mut s, &mut ctx).unwrap();
    assert_eq!(s.result, 2);
    assert_eq!(s.result_buffer, second);
    assert_eq!(s.timestamp, 1700001234);
    // The second settlement lost (guess 1, result 2): no further payout.
    assert_eq!(ctx.player_balance, 1_000 + 2 * AMOUNT);
}

#[test]
fn request_after_settlement_clears_result() {
    let mut s = fresh_state();
    s.guess = 1;
    let buffer = nonzero_buffer_reducing_to_one();
    let mut cctx = consume_ctx(buffer, 1_000, 10 * AMOUNT);
    consume_randomness(&mut s, &mut cctx).unwrap();
    assert_eq!(s.result, 1);
    let mut rctx = RequestRandomness {
        player_key: PLAYER,
        vrf_key: VRF_KEY,
        player_balance: 10 * AMOUNT,
        vault_balance: 0,
    };
    request_randomness(&mut s, &mut rctx, 2).unwrap();
    assert_eq!(s.result, 0);
    assert_eq!(s.guess, 2);
    // The buffer of the settled round stays: only a new oracle buffer settles.
    assert_eq!(s.result_buffer, buffer);
}

#[test]
fn close_refunds_storage_deposit() {
    let s = fresh_state();
    let mut ctx = Close { player_balance: 500, storage_deposit: 1_200 };
    close(s, &mut ctx).unwrap();
    assert_eq!(ctx.player_balance, 1_700);
    assert_eq!(ctx.storage_deposit, 0);
}
