use amm_core::curve::{SwapQuote, WithdrawQuote};
use amm_core::custody::{sign_as_vault, u64_le_bytes};
use amm_core::error::AmmError;
use amm_core::state::{initialize, Config};
use amm_core::swap::Swap;
use amm_core::withdraw::Withdraw;

fn config(fee: u16, locked: bool) -> Config {
    let mut c = initialize(7, fee, None, [1u8; 32], [2u8; 32], 254, 253).unwrap();
    c.locked = locked;
    c
}

fn swap_state(locked: bool) -> Swap {
    Swap {
        config: config(0, locked),
        user_x: 500,
        user_y: 0,
        vault_x: 1000,
        vault_y: 1000,
        lp_supply: 1000,
    }
}

fn same_swap_balances(a: &Swap, b: &Swap) -> bool {
    a.user_x == b.user_x
        && a.user_y == b.user_y
        && a.vault_x == b.vault_x
        && a.vault_y == b.vault_y
        && a.lp_supply == b.lp_supply
}

#[test]
fn initialize_sets_fields_unlocked() {
    let c = initialize(42, 30, Some([9u8; 32]), [1u8; 32], [2u8; 32], 250, 251).unwrap();
    assert_eq!(c.seed, 42);
    assert_eq!(c.fee, 30);
    assert_eq!(c.authority, Some([9u8; 32]));
    assert!(!c.locked);
    assert_eq!(c.config_bump, 250);
    assert_eq!(c.lp_bump, 251);
}

#[test]
fn initialize_rejects_whole_fee() {
    assert_eq!(initialize(1, 10_000, None, [0u8; 32], [0u8; 32], 0, 0).unwrap_err(), AmmError::InvalidAmount);
}

#[test]
fn locked_pool_rejects_swap_without_change() {
    for (amount, min) in [(0u64, 0u64), (100, 0), (100, 1_000_000), (u64::MAX, 0)] {
        let mut s = swap_state(true);
        let before = s;
        assert_eq!(s.swap(true, amount, min), Err(AmmError::PoolLocked));
        assert!(same_swap_balances(&s, &before));
    }
}

#[test]
fn swap_x_for_y_moves_both_legs() {
    let mut s = swap_state(false);
    let q = s.swap(true, 100, 90).unwrap();
    assert_eq!(q, SwapQuote { amount_in_taken: 100, amount_out_given: 90 });
    assert_eq!((s.user_x, s.user_y, s.vault_x, s.vault_y), (400, 90, 1100, 910));
    assert!(1100u64 * 910 >= 1000 * 1000);
}

#[test]
fn swap_y_for_x_moves_both_legs() {
    let mut s = swap_state(false);
    s.user_y = 100;
    let q = s.swap(false, 100, 0).unwrap();
    assert_eq!(q.amount_out_given, 90);
    assert_eq!((s.user_x, s.user_y, s.vault_x, s.vault_y), (590, 0, 910, 1100));
}

#[test]
fn swap_zero_amount_is_invalid() {
    let mut s = swap_state(false);
    assert_eq!(s.swap(true, 0, 0), Err(AmmError::InvalidAmount));
}

#[test]
fn swap_slippage_leaves_balances() {
    let mut s = swap_state(false);
    let before = s;
    assert_eq!(s.swap(true, 100, 91), Err(AmmError::SlippageExceeded));
    assert!(same_swap_balances(&s, &before));
}

#[test]
fn swap_without_funds_is_insufficient_balance() {
    let mut s = swap_state(false);
    let before = s;
    assert_eq!(s.swap(true, 501, 0), Err(AmmError::InsufficientBalance));
    assert!(same_swap_balances(&s, &before));
}

#[test]
fn swap_receiver_overflow_rolls_back() {
    let mut s = swap_state(false);
    s.user_y = u64::MAX;
    let before = s;
    assert_eq!(s.swap(true, 100, 0), Err(AmmError::Overflow));
    assert!(same_swap_balances(&s, &before));
}

#[test]
fn give_and_receive_single_legs() {
    let mut s = swap_state(false);
    assert_eq!(s.give(true, 200), Ok(()));
    assert_eq!((s.user_x, s.vault_x), (300, 1200));
    assert_eq!(s.give(false, 1), Err(AmmError::InsufficientBalance));
    assert_eq!(s.receive(true, 50), Ok(()));
    assert_eq!((s.vault_y, s.user_y), (950, 50));
    assert_eq!(s.receive(false, 5000), Err(AmmError::InsufficientBalance));
}

fn withdraw_state() -> Withdraw {
    Withdraw {
        config: config(30, true),
        user_x: 0,
        user_y: 0,
        user_lp: 100,
        vault_x: 1000,
        vault_y: 2000,
        lp_supply: 400,
    }
}

#[test]
fn withdraw_pays_pro_rata_and_burns() {
    let mut w = withdraw_state();
    let q = w.withdraw(250, 500, 100).unwrap();
    assert_eq!(q, WithdrawQuote { amount_x: 250, amount_y: 500 });
    assert_eq!((w.user_x, w.user_y, w.user_lp), (250, 500, 0));
    assert_eq!((w.vault_x, w.vault_y, w.lp_supply), (750, 1500, 300));
}

#[test]
fn withdraw_zero_shares_is_invalid() {
    let mut w = withdraw_state();
    assert_eq!(w.withdraw(0, 0, 0), Err(AmmError::InvalidAmount));
    assert_eq!((w.user_x, w.user_y, w.user_lp), (0, 0, 100));
}

#[test]
fn withdraw_more_than_held_is_insufficient() {
    let mut w = withdraw_state();
    assert_eq!(w.withdraw(0, 0, 101), Err(AmmError::InsufficientBalance));
    assert_eq!((w.user_x, w.user_y, w.user_lp), (0, 0, 100));
    assert_eq!((w.vault_x, w.vault_y, w.lp_supply), (1000, 2000, 400));
}

#[test]
fn withdraw_below_minimum_is_slippage() {
    let mut w = withdraw_state();
    assert_eq!(w.withdraw(251, 0, 100), Err(AmmError::SlippageExceeded));
    assert_eq!((w.vault_x, w.user_lp), (1000, 100));
}

#[test]
fn withdraw_overflowing_receiver_rolls_back() {
    let mut w = withdraw_state();
    w.user_y = u64::MAX;
    assert_eq!(w.withdraw(0, 0, 100), Err(AmmError::Overflow));
    assert_eq!((w.user_x, w.vault_x, w.vault_y, w.user_lp), (0, 1000, 2000, 100));
}

#[test]
fn burn_and_withdraw_token_single_legs() {
    let mut w = withdraw_state();
    assert_eq!(w.burn_lp_token(101), Err(AmmError::InsufficientBalance));
    assert_eq!(w.burn_lp_token(40), Ok(()));
    assert_eq!((w.user_lp, w.lp_supply), (60, 360));
    assert_eq!(w.withdraw_token(false, 2001), Err(AmmError::InsufficientBalance));
    assert_eq!(w.withdraw_token(false, 1), Ok(()));
    assert_eq!((w.vault_y, w.user_y), (1999, 1));
}

#[test]
fn vault_seeds_are_tag_seed_and_bump() {
    let c = initialize(0x0102030405060708, 0, None, [0u8; 32], [0u8; 32], 254, 1).unwrap();
    let seeds = sign_as_vault(&c);
    assert_eq!(seeds.len(), 3);
    assert_eq!(seeds[0], b"config".to_vec());
    assert_eq!(seeds[1], 0x0102030405060708u64.to_le_bytes().to_vec());
    assert_eq!(seeds[2], vec![254u8]);
}

#[test]
fn le_bytes_match_std() {
    for v in [0u64, 1, 255, 256, 0xdead_beef, u64::MAX] {
        assert_eq!(u64_le_bytes(v), v.to_le_bytes().to_vec());
    }
}
