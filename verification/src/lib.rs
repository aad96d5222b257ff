//! A ledger-resident financial protocol with two coupled engines: a
//! constant-product automated market maker for a two-token pair, and a
//! pari-mutuel prediction market that escrows bets per token side and
//! distributes winnings on resolution.
//!
//! Every operation is a pure, atomic state transition: it validates its
//! preconditions, performs overflow-checked arithmetic on wide
//! intermediates, and either returns the updated entity state together
//! with the amounts the ledger substrate must move, or an error with no
//! state changed. The substrate itself (token transfers, clocks, signers,
//! account addressing) stays outside this crate.

pub mod amm;
pub mod bet;
pub mod errors;
pub mod event;
pub mod layout;
pub mod market;
pub mod math;
pub mod payout;
pub mod platform;
pub mod stats;

pub use amm::LiquidityPool;
pub use bet::UserBet;
pub use errors::AmmError;
pub use errors::PredictionError;
pub use event::EventStatus;
pub use event::Outcome;
pub use event::PredictionEvent;
pub use platform::PlatformConfig;
pub use stats::UserStats;
