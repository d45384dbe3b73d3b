use vstd::prelude::*;

verus! {

pub const SEED: &'static str = "anchor";

/// The pockets of a European wheel, in the order they stand on the wheel.
pub const EUROPEAN_ROULETTE_NUMBERS: [u8; 37] = [
    0, 32, 15, 19, 4, 21, 2, 25, 17, 34, 6, 27, 13, 36, 11, 30, 8, 23, 10, 5, 24, 16, 33, 1, 20,
    14, 31, 9, 22, 18, 29, 7, 28, 12, 35, 3, 26,
];

pub const STRAIGHT_UP_PAYOUT_MULTIPLIER: u8 = 35;

/// The number of pockets of the wheel.
pub const SLOT_COUNT: usize = 37;

/// The most bets that a round's bets account holds.
pub const MAX_BETS: usize = 10;

/// The most numbers that one bet of a bets account names.
pub const MAX_BET_TARGETS: usize = 6;

/// 100 SOL, in lamports.
pub const MAX_BET_AMOUNT: u64 = 100_000_000_000;

/// The wheel holds every number from 0 to 36 in exactly one pocket.
pub proof fn lemma_wheel_holds_every_number_once()
    ensures
        EUROPEAN_ROULETTE_NUMBERS@.len() == SLOT_COUNT,
        forall|n: u8| n < SLOT_COUNT ==> EUROPEAN_ROULETTE_NUMBERS@.contains(n),
        forall|i: int, j: int|
            0 <= i < j < SLOT_COUNT ==> EUROPEAN_ROULETTE_NUMBERS@[i] != EUROPEAN_ROULETTE_NUMBERS@[j],
{
}

} // verus!
