pub mod bet;
pub mod game;
pub mod game_state;
pub mod player;
pub mod round;

pub use bet::{Bet, BetState};
pub use game::GameState;
pub use player::PlayerState;
pub use round::RoundState;
