//! Records of the engine: the deployment configuration, the per-deposit order
//! ledger entry, the holder-count reading, the error taxonomy and the rebase
//! signal, together with the order's invariants and the mathematical step that
//! one successful tranche execution takes.

use vstd::prelude::*;

verus! {

/// Deployment-wide policy parameters, created once and passed explicitly into
/// every operation that reads them.
#[derive(Clone, Copy, Debug, PartialEq, Eq, Structural)]
pub struct Config {
    /// Identity of the deploying authority.
    pub owner: u64,
    /// Discriminator chosen by the deployer at initialization.
    pub bump: u8,
    /// Minimum seconds between consecutive tranche executions of an order.
    pub tranche_interval: u64,
    /// Reserved policy cap in basis points; stored but enforced by no
    /// operation of this engine.
    pub max_tx_percent_bp: u64,
}

/// One ledger entry per seller deposit: the state machine that tranche
/// execution advances.
#[derive(Clone, Copy, Debug, PartialEq, Eq, Structural)]
pub struct WhaleOrder {
    /// Owning identity.
    pub seller: u64,
    /// Original deposited amount, fixed at creation.
    pub total: u64,
    /// Amount not yet released.
    pub remaining: u64,
    /// Nominal per-execution release size, fixed at creation.
    pub tranche: u64,
    /// Creation timestamp, in seconds.
    pub start_time: i64,
    /// Timestamp of the most recent execution; 0 means "never executed".
    pub last_executed: i64,
    /// True while `remaining > 0`.
    pub active: bool,
}

/// Externally maintained count of distinct holders, read-only here.
#[derive(Clone, Copy, Debug, PartialEq, Eq, Structural)]
pub struct HolderCount {
    pub count: u64,
}

/// The errors of the engine's operations. Every error leaves all state
/// untouched.
#[derive(Clone, Copy, Debug, PartialEq, Eq, Structural)]
pub enum ErrorCode {
    /// Operation attempted on a completed or never-active order.
    OrderInactive,
    /// The tranche interval has not elapsed since the last execution.
    TrancheNotReady,
    /// The settlement reserve cannot cover the requested payout.
    InsufficientAnchor,
    /// The price feed could not be read.
    BadOracle,
}

/// The ways a balance transfer can fail; either leaves both balances
/// untouched.
#[derive(Clone, Copy, Debug, PartialEq, Eq, Structural)]
pub enum TransferError {
    /// The source balance holds less than the requested amount.
    InsufficientFunds,
    /// The destination balance cannot take the amount without wrapping.
    Overflow,
}

/// The notification emitted by a rebase trigger: a shrink ratio in basis
/// points and the price it was derived under.
#[derive(Clone, Copy, Debug, PartialEq, Eq, Structural)]
pub struct RebaseSignal {
    pub shrink_bp: u64,
    pub price: i128,
}

impl ErrorCode {
    /// The message each error carries to the caller.
    pub open spec fn spec_message(self) -> Seq<char> {
        match self {
            ErrorCode::OrderInactive => "Order inactive or finished"@,
            ErrorCode::TrancheNotReady => "Tranche not ready"@,
            ErrorCode::InsufficientAnchor => "Insufficient anchor"@,
            ErrorCode::BadOracle => "Bad oracle"@,
        }
    }

    /// The message each error carries to the caller.
    pub fn message(&self) -> (r: &'static str)
        ensures
            r@ == self.spec_message(),
    {
        match self {
            ErrorCode::OrderInactive => "Order inactive or finished",
            ErrorCode::TrancheNotReady => "Tranche not ready",
            ErrorCode::InsufficientAnchor => "Insufficient anchor",
            ErrorCode::BadOracle => "Bad oracle",
        }
    }
}

impl WhaleOrder {
    /// Well-formedness: holds at creation and after every operation.
    pub open spec fn wf(self) -> bool {
        &&& 0 < self.total
        &&& 0 < self.tranche
        &&& self.remaining <= self.total
        &&& self.active == (self.remaining > 0)
        &&& 0 <= self.start_time
        &&& 0 <= self.last_executed
    }

    /// The amount one execution releases: the nominal tranche, capped at what
    /// is still remaining.
    pub open spec fn effective_tranche(self) -> u64 {
        if self.tranche > self.remaining {
            self.remaining
        } else {
            self.tranche
        }
    }

    /// The keeper reward of one execution: a tenth of the released amount,
    /// rounded down.
    pub open spec fn reward(self) -> u64 {
        self.effective_tranche() / 10
    }
}

/// Whether the time gate lets `order` execute at time `now`: the first
/// execution is never gated, later ones must wait out the configured interval
/// (boundary-inclusive).
pub open spec fn gate_open(order: WhaleOrder, cfg: Config, now: i64) -> bool {
    order.last_executed == 0 || now as int >= order.last_executed as int + cfg.tranche_interval as int
}

/// The order's state after one successful execution at time `now`: the
/// effective tranche leaves `remaining`, the execution time is recorded, and
/// the order deactivates exactly when it empties.
pub open spec fn order_after_execution(order: WhaleOrder, now: i64) -> WhaleOrder {
    let released = order.effective_tranche();
    WhaleOrder {
        remaining: (order.remaining - released) as u64,
        last_executed: now,
        active: order.remaining - released > 0,
        ..order
    }
}

} // verus!
