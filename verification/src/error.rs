use vstd::prelude::*;

verus! {

/// The program's own error codes, in the order the program declares them.
#[derive(Clone, Copy, Debug, PartialEq, Eq, Structural)]
pub enum ErrorCodes {
    /// Game is paused
    GamePaused,
    /// The given seed is invalid
    InvalidSeed,
    /// The Player is invalid
    InvalidPlayer,
    /// Invalid Round state
    RoundNotAcceptingBets,
    /// Bet amount too small
    BetTooSmall,
    /// Bet amount too large
    BetTooLarge,
    /// The round has no result yet
    ResultNotReady,
    /// The paying account holds fewer lamports than the transfer needs
    NotEnoughFundsToPlay,
    /// The randomness account is not the one the round committed to
    InvalidRandomnessAccount,
    /// The randomness was seeded at another slot than the committed one
    RandomnessExpired,
    /// The randomness is not revealed for the current slot
    RandomnessNotResolved,
    /// The round is not waiting for a random number
    NotWaitingForRandomNumber,
}

/// Why an instruction of the game fails: one of the program's own codes,
/// or an arithmetic overflow caught by a checked operation.
#[derive(Clone, Copy, Debug, PartialEq, Eq, Structural)]
pub enum RugletteError {
    Code(ErrorCodes),
    ArithmeticOverflow,
    /// An account's new contents do not fit in the space it was created with.
    AccountDidNotSerialize,
}

} // verus!
