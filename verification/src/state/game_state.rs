use vstd::prelude::*;

use crate::types::Pubkey;

verus! {

/// A player's stake in a game.
#[derive(Clone, Copy, Debug, PartialEq, Eq)]
pub struct GameState {
    pub player: Pubkey,
    pub bet_amount: u64,
}

} // verus!
