//! Error kinds surfaced by the two engines. Every operation aborts with one
//! of these before any state is mutated; each kind is distinct so callers
//! can branch on it.

use vstd::prelude::*;

verus! {

/// Errors of the liquidity-pool engine.
#[derive(Clone, Copy, Debug, PartialEq, Eq, Structural)]
pub enum AmmError {
    /// An amount argument was zero.
    InvalidAmount,
    /// A checked operation could not represent its result.
    Overflow,
    /// A checked subtraction went below zero.
    Underflow,
    /// A computed output fell below the caller's stated minimum.
    SlippageExceeded,
    /// The first deposit did not exceed the minimum-liquidity floor.
    InsufficientInitialLiquidity,
    /// The pool has no reserves or no liquidity supply.
    EmptyPool,
    /// A swap would drain the output reserve.
    InsufficientLiquidity,
}

/// Errors of the prediction-market engine.
#[derive(Clone, Copy, Debug, PartialEq, Eq, Structural)]
pub enum PredictionError {
    /// The platform pause flag is set.
    PlatformPaused,
    /// The betting window of the event is closed.
    EventEnded,
    /// The event is not resolved (or not yet resolvable).
    EventNotResolved,
    /// The event already left the active state.
    EventAlreadyResolved,
    /// The event was cancelled.
    EventCancelled,
    /// The oracle missed its resolution window.
    ResolutionDeadlinePassed,
    /// The resolution window has not opened yet.
    ResolutionDeadlineNotPassed,
    /// A bet amount must be greater than zero.
    InvalidBetAmount,
    /// A bet already exists for this event and user.
    BetAlreadyPlaced,
    /// No bet exists for this event and user.
    NoBetFound,
    /// Winnings were already claimed for this bet.
    AlreadyClaimed,
    /// The bet's side is not the resolved outcome.
    NotAWinner,
    /// Nobody bet on the winning side, or the payout is unrepresentable.
    NoWinnings,
    /// The title must be between 1 and 128 bytes.
    InvalidTitle,
    /// The description must be between 1 and 512 bytes.
    InvalidDescription,
    /// The betting deadline must be strictly in the future.
    InvalidDeadline,
    /// The resolution deadline must be strictly after the betting deadline.
    InvalidResolutionDeadline,
    /// A fee rate must not exceed 10000 basis points.
    InvalidFeeBasisPoints,
    /// The caller is not the platform admin.
    Unauthorized,
    /// The caller is not the configured oracle.
    UnauthorizedOracle,
    /// A checked operation could not represent its result.
    Overflow,
    /// A vault does not hold enough to honour a transfer.
    InsufficientVaultFunds,
    /// An event with this id already exists.
    EventIdExists,
    /// The refund was already claimed for this bet.
    RefundAlreadyClaimed,
    /// Refunds are only available on cancelled events.
    EventNotCancelled,
}

} // verus!
