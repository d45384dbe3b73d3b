use ruglette::constants::{EUROPEAN_ROULETTE_NUMBERS, SLOT_COUNT, STRAIGHT_UP_PAYOUT_MULTIPLIER};
use ruglette::{calculate_payout, transfer, Bet, BetType, Color, ErrorCodes, RugletteError};

const ALL_TYPES: [BetType; 13] = [
    BetType::Straight,
    BetType::Split,
    BetType::Street,
    BetType::Corner,
    BetType::Sixline,
    BetType::Dozen,
    BetType::Column,
    BetType::Red,
    BetType::Black,
    BetType::Odd,
    BetType::Even,
    BetType::Low,
    BetType::High,
];

fn bet(bet_type: BetType, amount: u64, targets: &[u8]) -> Bet {
    Bet { bet_type, amount, targets: targets.to_vec() }
}

fn wins(b: &Bet, n: u8) -> bool {
    calculate_payout(b, n).unwrap() > 0
}

#[test]
fn multipliers_are_the_table() {
    assert_eq!(BetType::Straight.multiplier(), 35);
    assert_eq!(BetType::Split.multiplier(), 17);
    assert_eq!(BetType::Street.multiplier(), 11);
    assert_eq!(BetType::Corner.multiplier(), 8);
    assert_eq!(BetType::Sixline.multiplier(), 5);
    assert_eq!(BetType::Dozen.multiplier(), 2);
    assert_eq!(BetType::Column.multiplier(), 2);
    for t in [BetType::Red, BetType::Black, BetType::Odd, BetType::Even, BetType::Low, BetType::High] {
        assert_eq!(t.multiplier(), 1);
        assert_eq!(t.valid_targets(), 18);
    }
    assert_eq!(BetType::Straight.multiplier(), STRAIGHT_UP_PAYOUT_MULTIPLIER);
}

#[test]
fn valid_targets_are_the_table() {
    assert_eq!(BetType::Straight.valid_targets(), 1);
    assert_eq!(BetType::Split.valid_targets(), 2);
    assert_eq!(BetType::Street.valid_targets(), 3);
    assert_eq!(BetType::Corner.valid_targets(), 4);
    assert_eq!(BetType::Sixline.valid_targets(), 6);
    assert_eq!(BetType::Dozen.valid_targets(), 12);
    assert_eq!(BetType::Column.valid_targets(), 12);
}

#[test]
fn odds_are_fair_on_thirty_six_numbers() {
    for t in ALL_TYPES {
        assert_eq!((t.multiplier() as usize + 1) * t.valid_targets(), 36);
    }
}

#[test]
fn colors_of_the_wheel() {
    assert_eq!(BetType::get_color(0), Color::Green);
    let reds = [1u8, 3, 5, 7, 9, 12, 14, 16, 18, 19, 21, 23, 25, 27, 30, 32, 34, 36];
    for n in 1u8..=36 {
        let expected = if reds.contains(&n) { Color::Red } else { Color::Black };
        assert_eq!(BetType::get_color(n), expected);
    }
    assert_eq!(BetType::get_color(37), Color::Black);
    assert_eq!(BetType::get_color(255), Color::Black);
    let red_count = (1u8..=36).filter(|n| BetType::get_color(*n) == Color::Red).count();
    assert_eq!(red_count, 18);
}

#[test]
fn wheel_holds_every_number_once() {
    assert_eq!(EUROPEAN_ROULETTE_NUMBERS.len(), SLOT_COUNT);
    let mut seen = [false; 37];
    for n in EUROPEAN_ROULETTE_NUMBERS {
        assert!(!seen[n as usize]);
        seen[n as usize] = true;
    }
    assert!(seen.iter().all(|s| *s));
}

#[test]
fn straight_bet_pays_thirty_five_to_one() {
    let b = bet(BetType::Straight, 10, &[17]);
    assert_eq!(calculate_payout(&b, 17), Ok(350));
    assert_eq!(calculate_payout(&b, 18), Ok(0));
    let wrong_count = bet(BetType::Straight, 10, &[17, 18]);
    assert_eq!(calculate_payout(&wrong_count, 17), Ok(0));
}

#[test]
fn inside_bets_win_on_their_targets() {
    let split = bet(BetType::Split, 100, &[1, 2]);
    assert_eq!(calculate_payout(&split, 2), Ok(1700));
    assert_eq!(calculate_payout(&split, 3), Ok(0));
    let street = bet(BetType::Street, 100, &[4, 5, 6]);
    assert_eq!(calculate_payout(&street, 5), Ok(1100));
    assert_eq!(calculate_payout(&street, 7), Ok(0));
    let corner = bet(BetType::Corner, 100, &[1, 2, 4, 5]);
    assert_eq!(calculate_payout(&corner, 4), Ok(800));
    assert_eq!(calculate_payout(&corner, 3), Ok(0));
    let sixline = bet(BetType::Sixline, 100, &[1, 2, 3, 4, 5, 6]);
    assert_eq!(calculate_payout(&sixline, 6), Ok(500));
    assert_eq!(calculate_payout(&sixline, 7), Ok(0));
    let short_split = bet(BetType::Split, 100, &[1]);
    assert_eq!(calculate_payout(&short_split, 1), Ok(0));
}

#[test]
fn dozens_and_columns() {
    let first = bet(BetType::Dozen, 10, &[1]);
    let second = bet(BetType::Dozen, 10, &[2]);
    let third = bet(BetType::Dozen, 10, &[3]);
    assert_eq!(calculate_payout(&first, 12), Ok(20));
    assert_eq!(calculate_payout(&first, 13), Ok(0));
    assert_eq!(calculate_payout(&second, 13), Ok(20));
    assert_eq!(calculate_payout(&second, 24), Ok(20));
    assert_eq!(calculate_payout(&third, 25), Ok(20));
    assert_eq!(calculate_payout(&third, 37), Ok(0));
    assert_eq!(calculate_payout(&bet(BetType::Dozen, 10, &[4]), 40), Ok(0));
    let col1 = bet(BetType::Column, 10, &[1]);
    let col2 = bet(BetType::Column, 10, &[2]);
    let col3 = bet(BetType::Column, 10, &[3]);
    assert_eq!(calculate_payout(&col1, 34), Ok(20));
    assert_eq!(calculate_payout(&col2, 35), Ok(20));
    assert_eq!(calculate_payout(&col3, 36), Ok(20));
    assert_eq!(calculate_payout(&col3, 0), Ok(0));
    assert_eq!(calculate_payout(&col1, 36), Ok(0));
    assert_eq!(calculate_payout(&bet(BetType::Column, 10, &[0]), 3), Ok(0));
    assert_eq!(calculate_payout(&bet(BetType::Column, 10, &[1, 2]), 1), Ok(0));
}

#[test]
fn even_money_bets() {
    let none: [u8; 0] = [];
    assert_eq!(calculate_payout(&bet(BetType::Red, 7, &none), 1), Ok(7));
    assert_eq!(calculate_payout(&bet(BetType::Red, 7, &none), 2), Ok(0));
    assert_eq!(calculate_payout(&bet(BetType::Black, 7, &none), 2), Ok(7));
    assert_eq!(calculate_payout(&bet(BetType::Odd, 7, &none), 35), Ok(7));
    assert_eq!(calculate_payout(&bet(BetType::Even, 7, &none), 36), Ok(7));
    assert_eq!(calculate_payout(&bet(BetType::Low, 7, &none), 18), Ok(7));
    assert_eq!(calculate_payout(&bet(BetType::Low, 7, &none), 19), Ok(0));
    assert_eq!(calculate_payout(&bet(BetType::High, 7, &none), 19), Ok(7));
    assert_eq!(calculate_payout(&bet(BetType::High, 7, &none), 37), Ok(0));
}

#[test]
fn zero_loses_every_outside_bet() {
    for t in [BetType::Red, BetType::Black, BetType::Odd, BetType::Even, BetType::Low, BetType::High] {
        assert_eq!(calculate_payout(&bet(t, 5, &[]), 0), Ok(0));
    }
    for target in 1u8..=3 {
        assert_eq!(calculate_payout(&bet(BetType::Dozen, 5, &[target]), 0), Ok(0));
        assert_eq!(calculate_payout(&bet(BetType::Column, 5, &[target]), 0), Ok(0));
    }
    assert_eq!(calculate_payout(&bet(BetType::Straight, 5, &[0]), 0), Ok(175));
}

#[test]
fn even_money_bets_split_the_numbers() {
    for n in 1u8..=36 {
        let red = wins(&bet(BetType::Red, 1, &[]), n);
        let black = wins(&bet(BetType::Black, 1, &[]), n);
        assert!(red != black);
        let odd = wins(&bet(BetType::Odd, 1, &[]), n);
        let even = wins(&bet(BetType::Even, 1, &[]), n);
        assert!(odd != even);
        let low = wins(&bet(BetType::Low, 1, &[]), n);
        let high = wins(&bet(BetType::High, 1, &[]), n);
        assert!(low != high);
    }
}

#[test]
fn every_bet_wins_on_as_many_numbers_as_it_covers() {
    let cases: Vec<Bet> = vec![
        bet(BetType::Straight, 1, &[0]),
        bet(BetType::Split, 1, &[35, 36]),
        bet(BetType::Street, 1, &[31, 32, 33]),
        bet(BetType::Corner, 1, &[0, 1, 2, 3]),
        bet(BetType::Sixline, 1, &[13, 14, 15, 16, 17, 18]),
        bet(BetType::Dozen, 1, &[2]),
        bet(BetType::Column, 1, &[3]),
        bet(BetType::Red, 1, &[]),
        bet(BetType::Black, 1, &[]),
        bet(BetType::Odd, 1, &[]),
        bet(BetType::Even, 1, &[]),
        bet(BetType::Low, 1, &[]),
        bet(BetType::High, 1, &[]),
    ];
    for b in cases {
        let count = (0u8..37).filter(|n| wins(&b, *n)).count();
        assert_eq!(count, b.bet_type.valid_targets());
        let returned: u64 = (0u8..37)
            .map(|n| if wins(&b, n) { calculate_payout(&b, n).unwrap() + b.amount } else { 0 })
            .sum();
        assert_eq!(returned, 36);
    }
}

#[test]
fn payout_overflow_is_an_error() {
    let b = bet(BetType::Straight, u64::MAX / 35 + 1, &[9]);
    assert_eq!(calculate_payout(&b, 9), Err(RugletteError::ArithmeticOverflow));
    assert_eq!(calculate_payout(&b, 8), Ok(0));
    let fits = bet(BetType::Straight, u64::MAX / 35, &[9]);
    assert_eq!(calculate_payout(&fits, 9), Ok(u64::MAX / 35 * 35));
    let even = bet(BetType::Red, u64::MAX, &[]);
    assert_eq!(calculate_payout(&even, 1), Ok(u64::MAX));
}

#[test]
fn transfer_needs_the_funds() {
    assert_eq!(transfer(100, 100), Ok(()));
    assert_eq!(transfer(100, 0), Ok(()));
    assert_eq!(transfer(99, 100), Err(RugletteError::Code(ErrorCodes::NotEnoughFundsToPlay)));
}
