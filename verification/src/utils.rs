use vstd::prelude::*;

use crate::error::{ErrorCodes, RugletteError};
use crate::types::{BetType, Color};

verus! {

/// Whether a number of 1..=36 is red on a European wheel: among 1..=10 and
/// 19..=28 the odd numbers are red, among 11..=18 and 29..=36 the even ones.
pub open spec fn is_red_number(n: int) -> bool {
    &&& 1 <= n <= 36
    &&& if (1 <= n <= 10) || (19 <= n <= 28) {
        n % 2 == 1
    } else {
        n % 2 == 0
    }
}

/// The colour of a number: 0 is green, the red numbers are red, and every
/// other number is black.
pub open spec fn color_of(n: int) -> Color {
    if n == 0 {
        Color::Green
    } else if is_red_number(n) {
        Color::Red
    } else {
        Color::Black
    }
}

impl BetType {
    /// How many numbers a bet of this type covers.
    pub open spec fn covered_numbers(self) -> nat {
        match self {
            BetType::Straight => 1,
            BetType::Split => 2,
            BetType::Street => 3,
            BetType::Corner => 4,
            BetType::Sixline => 6,
            BetType::Dozen => 12,
            BetType::Column => 12,
            _ => 18,
        }
    }

    /// Whether the bet is placed on numbers that it names itself.
    pub open spec fn is_inside(self) -> bool {
        match self {
            BetType::Straight | BetType::Split | BetType::Street | BetType::Corner
            | BetType::Sixline => true,
            _ => false,
        }
    }

    /// The winnings paid per unit staked on a win: the odds that make a bet
    /// on `covered_numbers` of the 36 non-zero numbers fair, `36 / covered - 1`.
    pub open spec fn payout_odds(self) -> nat {
        (36nat / self.covered_numbers() - 1) as nat
    }

    /// Pays `multiplier` to 1 on a win.
    pub fn multiplier(&self) -> (m: u8)
        ensures
            m == self.payout_odds(),
    {
        match self {
            BetType::Straight => 35,
            BetType::Split => 17,
            BetType::Street => 11,
            BetType::Corner => 8,
            BetType::Sixline => 5,
            BetType::Dozen => 2,
            BetType::Column => 2,
            BetType::Red => 1,
            BetType::Black => 1,
            BetType::Odd => 1,
            BetType::Even => 1,
            BetType::Low => 1,
            BetType::High => 1,
        }
    }

    /// How many numbers a bet of this type covers.
    pub fn valid_targets(&self) -> (n: usize)
        ensures
            n == self.covered_numbers(),
    {
        match self {
            BetType::Straight => 1,
            BetType::Split => 2,
            BetType::Street => 3,
            BetType::Corner => 4,
            BetType::Sixline => 6,
            BetType::Dozen => 12,
            BetType::Column => 12,
            BetType::Red | BetType::Black | BetType::Odd | BetType::Even | BetType::Low
            | BetType::High => 18,
        }
    }

    /// European roulette colour of a number.
    pub fn get_color(number: u8) -> (c: Color)
        ensures
            c == color_of(number as int),
    {
        match number {
            0 => Color::Green,
            1 | 3 | 5 | 7 | 9 | 12 | 14 | 16 | 18 | 19 | 21 | 23 | 25 | 27 | 30 | 32 | 34 | 36 => {
                Color::Red
            },
            _ => Color::Black,
        }
    }
}

/// A bet's payout is fair on the 36 non-zero numbers: the stake plus the
/// winnings, times the count of numbers the bet covers, is 36 units.
pub proof fn lemma_fair_odds(bet_type: BetType)
    ensures
        (bet_type.payout_odds() + 1) * bet_type.covered_numbers() == 36,
{
    match bet_type {
        BetType::Straight => assert((35nat + 1) * 1 == 36),
        BetType::Split => assert((17nat + 1) * 2 == 36),
        BetType::Street => assert((11nat + 1) * 3 == 36),
        BetType::Corner => assert((8nat + 1) * 4 == 36),
        BetType::Sixline => assert((5nat + 1) * 6 == 36),
        BetType::Dozen | BetType::Column => assert((2nat + 1) * 12 == 36),
        _ => assert((1nat + 1) * 18 == 36),
    }
}

/// Whether a bet of type `bet_type` on `targets` wins when the wheel shows `n`.
///
/// An inside bet wins when it names exactly as many numbers as its type covers
/// and `n` is one of them. A dozen or column bet names one target, 1, 2 or 3.
/// The other bets ignore their targets.
pub open spec fn bet_wins(bet_type: BetType, targets: Seq<u8>, n: int) -> bool {
    match bet_type {
        BetType::Odd => n > 0 && n % 2 == 1,
        BetType::Even => n > 0 && n % 2 == 0,
        BetType::Low => 1 <= n <= 18,
        BetType::High => 19 <= n <= 36,
        BetType::Red => color_of(n) == Color::Red,
        BetType::Black => color_of(n) == Color::Black,
        BetType::Dozen => {
            &&& targets.len() == 1
            &&& 1 <= targets[0] <= 3
            &&& 1 <= n <= 36
            &&& (n - 1) / 12 == targets[0] - 1
        },
        BetType::Column => {
            &&& targets.len() == 1
            &&& 1 <= targets[0] <= 3
            &&& n > 0
            &&& n % 3 == targets[0] % 3
        },
        _ => targets.len() == bet_type.covered_numbers() && targets.contains(n as u8),
    }
}

/// Whether `amount` lamports can be moved out of an account holding `available`.
pub open spec fn transfer_allowed(available: u64, amount: u64) -> bool {
    amount <= available
}

/// Checks that the paying account holds the lamports that a transfer moves.
pub fn transfer(available: u64, amount: u64) -> (r: Result<(), RugletteError>)
    ensures
        r is Ok <==> transfer_allowed(available, amount),
        r is Err ==> r == Err::<(), RugletteError>(RugletteError::Code(ErrorCodes::NotEnoughFundsToPlay)),
{
    if amount > available {
        return Err(RugletteError::Code(ErrorCodes::NotEnoughFundsToPlay));
    }
    Ok(())
}

/// Taking one more element of a sequence appends that element.
pub(crate) proof fn lemma_take_step<A>(s: Seq<A>, i: int)
    requires
        0 <= i < s.len(),
    ensures
        s.take(i + 1).drop_last() == s.take(i),
        s.take(i + 1).last() == s[i],
        s.take(i + 1).len() == i + 1,
{
    assert(s.take(i + 1).drop_last() =~= s.take(i));
}

} // verus!
