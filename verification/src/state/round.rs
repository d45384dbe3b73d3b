use vstd::prelude::*;

use crate::types::{GameStatus, Pubkey};

verus! {

/// One round of the game, played by one player.
#[derive(Clone, Copy, Debug, PartialEq, Eq)]
pub struct RoundState {
    /// The player who placed the bet
    pub player: Pubkey,
    /// Timestamp when round started
    pub start_time: i64,
    /// The slot at which the round committed to its randomness
    pub commit_slot: u64,
    /// The winning number (0-36) once determined
    pub winning_number: Option<u8>,
    /// Total amount wagered in this round
    pub total_wagered: u64,
    /// What the round paid out, once settled
    pub payout_amount: Option<u64>,
    /// status of the round
    pub status: GameStatus,
    /// Switchboard VRF account
    pub vrf_account: Pubkey,
    /// Result buffer
    pub result_buffer: [u8; 32],
    /// Bump for PDA derivation
    pub bump: u8,
}

impl RoundState {
    /// What every round that the instructions produce satisfies: a winning
    /// number is a pocket of the wheel drawn from the first byte of the result
    /// buffer, it is there exactly once the randomness was revealed, and a
    /// payout is recorded exactly once the round is settled.
    pub open spec fn wf(self) -> bool {
        &&& self.winning_number matches Some(n) ==> n < 37 && n == self.result_buffer@[0] % 37
        &&& (self.status == GameStatus::AcceptingBets || self.status == GameStatus::WaitingForVRF)
            ==> self.winning_number is None && self.payout_amount is None
        &&& self.status == GameStatus::ResultReady ==> self.winning_number is Some
            && self.payout_amount is None
        &&& self.status == GameStatus::BetsSettled ==> self.winning_number is Some
            && self.payout_amount is Some
    }
}

} // verus!
