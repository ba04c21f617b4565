use liquidity_manager::engine::{
    execute_tranche, initialize, submit_order, transfer, trigger_rebase, ExecuteTranche,
    Initialize, SubmitOrder, TriggerRebase,
};
use liquidity_manager::state::{ErrorCode, HolderCount, TransferError, WhaleOrder};

const DAY: i64 = 86_400;

fn fresh_order(total: u64, tranche: u64) -> (WhaleOrder, SubmitOrder) {
    let mut accounts = SubmitOrder {
        seller: 7,
        seller_token_account: total,
        vault_shift: 0,
    };
    let order = submit_order(&mut accounts, total, tranche, 5).unwrap();
    (order, accounts)
}

#[test]
fn initialize_sets_defaults() {
    let cfg = initialize(&Initialize { authority: 11 }, 254);
    assert_eq!(cfg.owner, 11);
    assert_eq!(cfg.bump, 254);
    assert_eq!(cfg.tranche_interval, 86_400);
    assert_eq!(cfg.max_tx_percent_bp, 100);
}

#[test]
fn submit_creates_fresh_order() {
    let mut accounts = SubmitOrder {
        seller: 9,
        seller_token_account: 5_000,
        vault_shift: 120,
    };
    let order = submit_order(&mut accounts, 1_000, 340, 77).unwrap();
    assert_eq!(order.seller, 9);
    assert_eq!(order.total, 1_000);
    assert_eq!(order.remaining, 1_000);
    assert_eq!(order.tranche, 340);
    assert_eq!(order.start_time, 77);
    assert_eq!(order.last_executed, 0);
    assert!(order.active);
    assert_eq!(accounts.seller_token_account, 4_000);
    assert_eq!(accounts.vault_shift, 1_120);
}

#[test]
fn submit_fails_atomically_on_insufficient_balance() {
    let mut accounts = SubmitOrder {
        seller: 9,
        seller_token_account: 999,
        vault_shift: 120,
    };
    let r = submit_order(&mut accounts, 1_000, 340, 77);
    assert_eq!(r, Err(TransferError::InsufficientFunds));
    assert_eq!(accounts.seller_token_account, 999);
    assert_eq!(accounts.vault_shift, 120);
}

#[test]
fn transfer_moves_or_fails_cleanly() {
    let mut a: u64 = 30;
    let mut b: u64 = 5;
    assert_eq!(transfer(&mut a, &mut b, 20), Ok(()));
    assert_eq!(a, 10);
    assert_eq!(b, 25);
    assert_eq!(transfer(&mut a, &mut b, 11), Err(TransferError::InsufficientFunds));
    assert_eq!(a, 10);
    assert_eq!(b, 25);
    let mut c: u64 = u64::MAX;
    assert_eq!(transfer(&mut a, &mut c, 1), Err(TransferError::Overflow));
    assert_eq!(a, 10);
    assert_eq!(c, u64::MAX);
}

#[test]
fn tranche_schedule_releases_and_rewards() {
    // total 1000, tranche 340: releases of 340, 340, 320; rewards 34, 34, 32.
    let cfg = initialize(&Initialize { authority: 1 }, 0);
    let (mut order, deposited) = fresh_order(1_000, 340);
    let mut ex = ExecuteTranche {
        vault_shift: deposited.vault_shift,
        vault_anchor: 600,
        keeper_token: 0,
        seller_anchor: 0,
    };

    assert_eq!(execute_tranche(&mut order, &cfg, &mut ex, 100, 50), Ok(()));
    assert_eq!(order.remaining, 660);
    assert_eq!(order.last_executed, 100);
    assert!(order.active);
    assert_eq!(ex.vault_shift, 966);
    assert_eq!(ex.keeper_token, 34);
    assert_eq!(ex.vault_anchor, 550);
    assert_eq!(ex.seller_anchor, 50);

    assert_eq!(execute_tranche(&mut order, &cfg, &mut ex, 100 + DAY, 50), Ok(()));
    assert_eq!(order.remaining, 320);
    assert_eq!(ex.keeper_token, 68);

    assert_eq!(execute_tranche(&mut order, &cfg, &mut ex, 100 + 2 * DAY, 50), Ok(()));
    assert_eq!(order.remaining, 0);
    assert!(!order.active);
    assert_eq!(order.total, 1_000);
    assert_eq!(ex.keeper_token, 100);
    assert_eq!(ex.vault_shift, 900);
    assert_eq!(ex.seller_anchor, 150);
    assert_eq!(ex.vault_anchor, 450);
}

#[test]
fn first_execution_is_not_interval_gated() {
    let cfg = initialize(&Initialize { authority: 1 }, 0);
    let (mut order, deposited) = fresh_order(100, 10);
    let mut ex = ExecuteTranche {
        vault_shift: deposited.vault_shift,
        vault_anchor: 10,
        keeper_token: 0,
        seller_anchor: 0,
    };
    // immediately after creation, with no waiting at all
    assert_eq!(execute_tranche(&mut order, &cfg, &mut ex, 5, 1), Ok(()));
    assert_eq!(order.remaining, 90);
}

#[test]
fn interval_boundary_is_inclusive() {
    let cfg = initialize(&Initialize { authority: 1 }, 0);
    let (mut order, deposited) = fresh_order(100, 10);
    let mut ex = ExecuteTranche {
        vault_shift: deposited.vault_shift,
        vault_anchor: 10,
        keeper_token: 0,
        seller_anchor: 0,
    };
    assert_eq!(execute_tranche(&mut order, &cfg, &mut ex, 1_000, 1), Ok(()));

    // one second short of the interval: rejected, state untouched
    let before = order;
    let vaults_before = ex;
    let r = execute_tranche(&mut order, &cfg, &mut ex, 1_000 + DAY - 1, 1);
    assert_eq!(r, Err(ErrorCode::TrancheNotReady));
    assert_eq!(order, before);
    assert_eq!(ex, vaults_before);

    // exactly at the interval: accepted
    assert_eq!(execute_tranche(&mut order, &cfg, &mut ex, 1_000 + DAY, 1), Ok(()));
    assert_eq!(order.last_executed, 1_000 + DAY);
}

#[test]
fn completed_order_is_inactive() {
    let cfg = initialize(&Initialize { authority: 1 }, 0);
    let (mut order, deposited) = fresh_order(10, 10);
    let mut ex = ExecuteTranche {
        vault_shift: deposited.vault_shift,
        vault_anchor: 10,
        keeper_token: 0,
        seller_anchor: 0,
    };
    assert_eq!(execute_tranche(&mut order, &cfg, &mut ex, 50, 1), Ok(()));
    assert_eq!(order.remaining, 0);
    assert!(!order.active);

    let before = order;
    let vaults_before = ex;
    let r = execute_tranche(&mut order, &cfg, &mut ex, 50 + DAY, 1);
    assert_eq!(r, Err(ErrorCode::OrderInactive));
    assert_eq!(order, before);
    assert_eq!(ex, vaults_before);
}

#[test]
fn payout_over_reserve_is_rejected_without_effect() {
    let cfg = initialize(&Initialize { authority: 1 }, 0);
    let (mut order, deposited) = fresh_order(100, 10);
    let mut ex = ExecuteTranche {
        vault_shift: deposited.vault_shift,
        vault_anchor: 40,
        keeper_token: 3,
        seller_anchor: 4,
    };
    let before = order;
    let vaults_before = ex;
    let r = execute_tranche(&mut order, &cfg, &mut ex, 9, 41);
    assert_eq!(r, Err(ErrorCode::InsufficientAnchor));
    assert_eq!(order, before);
    assert_eq!(ex, vaults_before);

    // a payout of exactly the reserve is accepted
    assert_eq!(execute_tranche(&mut order, &cfg, &mut ex, 9, 40), Ok(()));
    assert_eq!(ex.vault_anchor, 0);
    assert_eq!(ex.seller_anchor, 44);
}

#[test]
fn tranche_larger_than_remaining_is_capped() {
    let cfg = initialize(&Initialize { authority: 1 }, 0);
    let (mut order, deposited) = fresh_order(25, 1_000);
    let mut ex = ExecuteTranche {
        vault_shift: deposited.vault_shift,
        vault_anchor: 10,
        keeper_token: 0,
        seller_anchor: 0,
    };
    assert_eq!(execute_tranche(&mut order, &cfg, &mut ex, 8, 1), Ok(()));
    assert_eq!(order.remaining, 0);
    assert!(!order.active);
    // reward is a tenth of the released 25, rounded down
    assert_eq!(ex.keeper_token, 2);
    assert_eq!(ex.vault_shift, 23);
}

#[test]
fn rebase_boundary_is_strictly_above_one_thousand() {
    let big = trigger_rebase(&TriggerRebase {
        pyth_price: Some(42),
        holder_count: HolderCount { count: 1_001 },
    })
    .unwrap();
    assert_eq!(big.shrink_bp, 50);
    assert_eq!(big.price, 42);

    let small = trigger_rebase(&TriggerRebase {
        pyth_price: Some(-3),
        holder_count: HolderCount { count: 1_000 },
    })
    .unwrap();
    assert_eq!(small.shrink_bp, 500);
    assert_eq!(small.price, -3);
}

#[test]
fn errors_carry_their_messages() {
    assert_eq!(ErrorCode::OrderInactive.message(), "Order inactive or finished");
    assert_eq!(ErrorCode::TrancheNotReady.message(), "Tranche not ready");
    assert_eq!(ErrorCode::InsufficientAnchor.message(), "Insufficient anchor");
    assert_eq!(ErrorCode::BadOracle.message(), "Bad oracle");
}

#[test]
fn unreadable_feed_is_a_bad_oracle() {
    let r = trigger_rebase(&TriggerRebase {
        pyth_price: None,
        holder_count: HolderCount { count: 1_001 },
    });
    assert_eq!(r, Err(ErrorCode::BadOracle));
}
