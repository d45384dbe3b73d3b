use vstd::prelude::*;

use crate::types::{BetType, Pubkey};

verus! {

/// One bet: its type, its stake in lamports, and the numbers it names.
#[derive(Clone, Debug, PartialEq, Eq)]
pub struct Bet {
    pub bet_type: BetType,
    pub amount: u64,
    pub targets: Vec<u8>,
}

/// The bets a player placed in a round.
#[derive(Clone, Debug, PartialEq, Eq)]
pub struct BetState {
    /// The round this bet belongs to
    pub round: Pubkey,
    /// Type of bets placed
    pub bets: Vec<Bet>,
    /// Timestamp when bet was placed
    pub timestamp: i64,
    /// Bump for PDA derivation
    pub bump: u8,
}

} // verus!
