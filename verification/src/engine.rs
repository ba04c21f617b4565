//! The engine's operations: configuration initialization, order submission,
//! tranche execution, and the rebase signal, together with the atomic value
//! transfer they account with.

use vstd::prelude::*;

use crate::state::{
    gate_open, order_after_execution, Config, ErrorCode, HolderCount, RebaseSignal,
    TransferError, WhaleOrder,
};

verus! {

/// The inputs of configuration initialization.
#[derive(Clone, Copy, Debug, PartialEq, Eq, Structural)]
pub struct Initialize {
    /// Identity of the deploying authority; becomes the configuration owner.
    pub authority: u64,
}

/// The value transfer service: atomically moves `amount` from one balance to
/// another, or fails leaving both untouched.
pub fn transfer(from: &mut u64, to: &mut u64, amount: u64) -> (r: Result<(), TransferError>)
    ensures
        r is Ok <==> (*old(from) >= amount && *old(to) + amount <= u64::MAX),
        match r {
            Ok(()) => {
                &&& *final(from) == *old(from) - amount
                &&& *final(to) == *old(to) + amount
            },
            Err(e) => {
                &&& *final(from) == *old(from)
                &&& *final(to) == *old(to)
                &&& (e == TransferError::InsufficientFunds <==> *old(from) < amount)
                &&& (e == TransferError::Overflow <==> *old(from) >= amount
                    && *old(to) + amount > u64::MAX)
            },
        },
{
    if *from < amount {
        Err(TransferError::InsufficientFunds)
    } else if amount > u64::MAX - *to {
        Err(TransferError::Overflow)
    } else {
        *from = *from - amount;
        *to = *to + amount;
        Ok(())
    }
}

/// Creates the deployment configuration with its default policy: a tranche
/// interval of one day and a reserved transaction cap of 100 basis points.
pub fn initialize(accounts: &Initialize, bump: u8) -> (cfg: Config)
    ensures
        cfg.owner == accounts.authority,
        cfg.bump == bump,
        cfg.tranche_interval == 86400,
        cfg.max_tx_percent_bp == 100,
{
    Config {
        owner: accounts.authority,
        bump,
        tranche_interval: 86400,
        max_tx_percent_bp: 100,
    }
}

/// The balances an order submission touches.
#[derive(Clone, Copy, Debug, PartialEq, Eq, Structural)]
pub struct SubmitOrder {
    /// Identity of the depositing seller.
    pub seller: u64,
    /// The seller-owned source balance the deposit is drawn from.
    pub seller_token_account: u64,
    /// The holding balance the deposit lands in.
    pub vault_shift: u64,
}

/// Creates an order and deposits its total into the holding balance, as one
/// atomic unit: if the deposit transfer fails, no order exists and both
/// balances are untouched.
pub fn submit_order(
    accounts: &mut SubmitOrder,
    total_amount: u64,
    tranche_amount: u64,
    now: i64,
) -> (r: Result<WhaleOrder, TransferError>)
    requires
        total_amount > 0,
        tranche_amount > 0,
        now >= 0,
    ensures
        r is Ok <==> (old(accounts).seller_token_account >= total_amount
            && old(accounts).vault_shift + total_amount <= u64::MAX),
        match r {
            Ok(order) => {
                &&& order.wf()
                &&& order.seller == old(accounts).seller
                &&& order.total == total_amount
                &&& order.remaining == total_amount
                &&& order.tranche == tranche_amount
                &&& order.start_time == now
                &&& order.last_executed == 0
                &&& order.active
                &&& final(accounts).seller == old(accounts).seller
                &&& final(accounts).seller_token_account == old(
                    accounts,
                ).seller_token_account - total_amount
                &&& final(accounts).vault_shift == old(accounts).vault_shift + total_amount
                &&& final(accounts).vault_shift >= order.remaining
            },
            Err(e) => {
                &&& *final(accounts) == *old(accounts)
                &&& (e == TransferError::InsufficientFunds <==> old(
                    accounts,
                ).seller_token_account < total_amount)
                &&& (e == TransferError::Overflow <==> old(accounts).seller_token_account
                    >= total_amount && old(accounts).vault_shift + total_amount > u64::MAX)
            },
        },
{
    let order = WhaleOrder {
        seller: accounts.seller,
        total: total_amount,
        remaining: total_amount,
        tranche: tranche_amount,
        start_time: now,
        last_executed: 0,
        active: true,
    };
    match transfer(&mut accounts.seller_token_account, &mut accounts.vault_shift, total_amount) {
        Ok(()) => Ok(order),
        Err(e) => Err(e),
    }
}

/// The balances a tranche execution touches.
#[derive(Clone, Copy, Debug, PartialEq, Eq, Structural)]
pub struct ExecuteTranche {
    /// The holding balance: funded by deposits, source of keeper rewards.
    pub vault_shift: u64,
    /// The settlement reserve the seller payout is drawn from.
    pub vault_anchor: u64,
    /// The reward balance of the keeper who triggered the execution.
    pub keeper_token: u64,
    /// The seller's counter-asset payout balance.
    pub seller_anchor: u64,
}

/// Advances an order by exactly one tranche: pays a tenth of the released
/// amount from the holding balance to the keeper, pays the caller-proposed
/// `expected_anchor_out` from the settlement reserve to the seller, and
/// updates the ledger entry; or fails with the first unmet precondition,
/// leaving the order and every balance untouched.
///
/// The holding balance must cover what the order still has to release (order
/// submission deposits the full total there), and the two destination
/// balances must have room for what they receive.
pub fn execute_tranche(
    order: &mut WhaleOrder,
    cfg: &Config,
    accounts: &mut ExecuteTranche,
    now: i64,
    expected_anchor_out: u64,
) -> (r: Result<(), ErrorCode>)
    requires
        old(order).wf(),
        now >= 0,
        old(accounts).vault_shift >= old(order).remaining,
        old(accounts).keeper_token + old(order).remaining <= u64::MAX,
        old(accounts).seller_anchor + expected_anchor_out <= u64::MAX,
    ensures
        final(order).wf(),
        final(order).total == old(order).total,
        final(order).tranche == old(order).tranche,
        final(order).seller == old(order).seller,
        final(order).start_time == old(order).start_time,
        final(order).last_executed >= old(order).last_executed,
        final(accounts).vault_shift >= final(order).remaining,
        r is Ok <==> (old(order).active && old(order).remaining > 0 && gate_open(
            *old(order),
            *cfg,
            now,
        ) && old(accounts).vault_anchor >= expected_anchor_out),
        match r {
            Ok(()) => {
                &&& *final(order) == order_after_execution(*old(order), now)
                &&& final(accounts).vault_shift == old(accounts).vault_shift - old(
                    order,
                ).reward()
                &&& final(accounts).keeper_token == old(accounts).keeper_token + old(
                    order,
                ).reward()
                &&& final(accounts).vault_anchor == old(accounts).vault_anchor
                    - expected_anchor_out
                &&& final(accounts).seller_anchor == old(accounts).seller_anchor
                    + expected_anchor_out
            },
            Err(e) => {
                &&& *final(order) == *old(order)
                &&& *final(accounts) == *old(accounts)
                &&& (e == ErrorCode::OrderInactive <==> !(old(order).active && old(
                    order,
                ).remaining > 0))
                &&& (e == ErrorCode::TrancheNotReady <==> old(order).active && old(
                    order,
                ).remaining > 0 && !gate_open(*old(order), *cfg, now))
                &&& (e == ErrorCode::InsufficientAnchor <==> old(order).active && old(
                    order,
                ).remaining > 0 && gate_open(*old(order), *cfg, now) && old(
                    accounts,
                ).vault_anchor < expected_anchor_out)
                &&& e != ErrorCode::BadOracle
            },
        },
{
    if !(order.active && order.remaining > 0) {
        return Err(ErrorCode::OrderInactive);
    }
    if order.last_executed != 0 {
        if (now as i128) < (order.last_executed as i128) + (cfg.tranche_interval as i128) {
            return Err(ErrorCode::TrancheNotReady);
        }
    }

    let mut tranche: u64 = order.tranche;
    if tranche > order.remaining {
        tranche = order.remaining;
    }

    if accounts.vault_anchor < expected_anchor_out {
        return Err(ErrorCode::InsufficientAnchor);
    }

    // Reward a tenth of the released amount to the keeper, out of the holding
    // balance.
    let reward: u64 = tranche / 10;
    accounts.vault_shift = accounts.vault_shift - reward;
    accounts.keeper_token = accounts.keeper_token + reward;

    // Pay the proposed counter-asset amount to the seller, out of the
    // settlement reserve.
    accounts.vault_anchor = accounts.vault_anchor - expected_anchor_out;
    accounts.seller_anchor = accounts.seller_anchor + expected_anchor_out;

    order.remaining = order.remaining - tranche;
    order.last_executed = now;
    if order.remaining == 0 {
        order.active = false;
    }
    Ok(())
}

/// The inputs a rebase trigger reads: the outcome of one oracle price read
/// (`None` when the feed could not be loaded or parsed) and the holder count.
#[derive(Clone, Copy, Debug, PartialEq, Eq, Structural)]
pub struct TriggerRebase {
    pub pyth_price: Option<i64>,
    pub holder_count: HolderCount,
}

/// The shrink ratio, in basis points, for a holder population: large
/// populations (over 1000 holders) get the gentler ratio.
pub open spec fn spec_shrink_bp(holders: u64) -> u64 {
    if holders > 1000 {
        50
    } else {
        500
    }
}

/// Computes the rebase signal for one oracle read and holder count: the
/// shrink ratio is 50 basis points when holders exceed 1000, else 500, and
/// the price is carried through unchanged. Fails exactly when the price read
/// failed. Mutates nothing, so any caller may trigger it at any frequency.
pub fn trigger_rebase(accounts: &TriggerRebase) -> (r: Result<RebaseSignal, ErrorCode>)
    ensures
        r is Ok <==> accounts.pyth_price is Some,
        match r {
            Ok(signal) => accounts.pyth_price matches Some(price) && signal.price == price as i128
                && signal.shrink_bp == spec_shrink_bp(accounts.holder_count.count),
            Err(e) => e == ErrorCode::BadOracle,
        },
{
    match accounts.pyth_price {
        Some(price) => {
            let shrink_bp: u64 = if accounts.holder_count.count > 1000 {
                50
            } else {
                500
            };
            Ok(RebaseSignal { shrink_bp, price: price as i128 })
        },
        None => Err(ErrorCode::BadOracle),
    }
}

} // verus!
