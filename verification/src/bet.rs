//! A user's bet on one event. One bet exists per (event, user) pair: the
//! substrate derives the record's address from that pair, so a second bet
//! on the same event collides at creation. The claimed and refunded flags
//! are each set at most once and never together.

use vstd::prelude::*;

use crate::event::Outcome;

verus! {

/// One wager: which event, who, which side, how much, and whether it has
/// been paid out or refunded.
#[derive(Clone, Copy, Debug)]
pub struct UserBet {
    /// Id of the event the bet is on.
    pub event: u64,
    /// Id of the user who placed it.
    pub user: u64,
    /// The side wagered on.
    pub outcome: Outcome,
    /// Amount wagered; always positive.
    pub amount: u64,
    /// When the bet was placed.
    pub placed_at: i64,
    /// Winnings were paid out.
    pub claimed: bool,
    /// The stake was returned after cancellation.
    pub refunded: bool,
    /// Address-derivation salt of the record.
    pub bump: u8,
}

impl UserBet {
    /// A wager is positive, and a bet is never both claimed and refunded.
    pub open spec fn wf(self) -> bool {
        &&& self.amount > 0
        &&& !(self.claimed && self.refunded)
    }

    /// Whether this bet is on the side the event resolved to.
    pub fn is_winner(&self, event_outcome: Option<Outcome>) -> (r: bool)
        ensures
            r == (event_outcome == Some(self.outcome)),
    {
        event_outcome == Some(self.outcome)
    }
}

} // verus!
