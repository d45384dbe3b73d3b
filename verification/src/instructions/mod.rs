pub mod initialize;
pub mod initialize_round;
pub mod place_bet;
pub mod settle_bets;
pub mod verify_randomness;
pub mod wheel_spin;

pub use initialize::initialize_game;
pub use initialize_round::initialize_round;
pub use place_bet::{place_bet, place_bet_within_range, PlacedBets};
pub use settle_bets::{calculate_payout, settle_bets, settle_bets_within_range};
pub use verify_randomness::{apply_randomness, verify_randomness};
pub use wheel_spin::{commit_randomness, wheel_spin};
