use vstd::prelude::*;

use crate::state::GameState;
use crate::types::Pubkey;

verus! {

/// The settings of a new game, as its authority chose them.
pub fn initialize_game(
    authority: Pubkey,
    min_bet: u64,
    max_bet: u64,
    house_fee_basis_points: u16,
    is_paused: bool,
    game_bump: u8,
    house_vault_bump: u8,
) -> (game: GameState)
    ensures
        game == (GameState {
            authority,
            min_bet,
            max_bet,
            house_fee_basis_points,
            is_paused,
            bump: game_bump,
            house_vault_bump,
        }),
{
    GameState {
        authority,
        min_bet,
        max_bet,
        house_fee_basis_points,
        is_paused,
        bump: game_bump,
        house_vault_bump,
    }
}

} // verus!
