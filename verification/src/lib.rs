//! The rules of a European roulette game played in rounds: a round is opened,
//! bets are placed, the wheel is spun against a committed randomness account,
//! the revealed randomness gives the winning number, and the bets are settled.

pub mod constants;
pub mod error;
pub mod instructions;
pub mod lifecycle;
pub mod odds;
pub mod randomness;
pub mod state;
pub mod types;
pub mod utils;

pub use error::{ErrorCodes, RugletteError};
pub use instructions::{
    apply_randomness, calculate_payout, commit_randomness, initialize_game, initialize_round, place_bet,
    place_bet_within_range, settle_bets, settle_bets_within_range, verify_randomness, wheel_spin,
    PlacedBets,
};
pub use randomness::RandomnessReading;
pub use state::{Bet, BetState, GameState, PlayerState, RoundState};
pub use types::{BetType, Color, GameStatus, Pubkey};
pub use utils::transfer;
