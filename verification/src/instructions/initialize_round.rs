use vstd::prelude::*;

use crate::error::{ErrorCodes, RugletteError};
use crate::state::{GameState, RoundState};
use crate::types::{GameStatus, Pubkey};

verus! {

/// `round` is a fresh round of `player`, started at `start_time`: it accepts
/// bets, has no wager, result or payout yet, and is committed to no
/// randomness account.
pub open spec fn is_fresh_round(round: RoundState, player: Pubkey, start_time: i64, bump: u8) -> bool {
    &&& round.player == player
    &&& round.start_time == start_time
    &&& round.commit_slot == 0
    &&& round.winning_number is None
    &&& round.total_wagered == 0
    &&& round.payout_amount is None
    &&& round.status == GameStatus::AcceptingBets
    &&& round.vrf_account@ == Seq::new(32, |i: int| 0u8)
    &&& round.result_buffer@ == Seq::new(32, |i: int| 0u8)
    &&& round.bump == bump
}

/// Opens a round of `game` for `player`. The start time, which also seeds
/// the round's address, must be positive, and the game must not be paused.
pub fn initialize_round(
    game: &GameState,
    player: Pubkey,
    start_time: i64,
    round_bump: u8,
) -> (r: Result<RoundState, RugletteError>)
    ensures
        game.is_paused ==> r == Err::<RoundState, RugletteError>(
            RugletteError::Code(ErrorCodes::GamePaused),
        ),
        !game.is_paused && start_time <= 0 ==> r == Err::<RoundState, RugletteError>(
            RugletteError::Code(ErrorCodes::InvalidSeed),
        ),
        !game.is_paused && start_time > 0 ==> (r matches Ok(round) && is_fresh_round(
            round,
            player,
            start_time,
            round_bump,
        )),
        r matches Ok(round) ==> round.wf(),
{
    if game.is_paused {
        return Err(RugletteError::Code(ErrorCodes::GamePaused));
    }
    if start_time <= 0 {
        return Err(RugletteError::Code(ErrorCodes::InvalidSeed));
    }
    let round = RoundState {
        player,
        start_time,
        commit_slot: 0,
        winning_number: None,
        total_wagered: 0,
        payout_amount: None,
        status: GameStatus::AcceptingBets,
        vrf_account: Pubkey::zeroed(),
        result_buffer: [0u8; 32],
        bump: round_bump,
    };
    assert(round.result_buffer@ =~= Seq::new(32, |i: int| 0u8));
    Ok(round)
}

} // verus!
