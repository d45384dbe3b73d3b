use vstd::prelude::*;

use crate::types::{BetType, Color};
use crate::utils::{bet_wins, color_of, lemma_fair_odds};

verus! {

/// How many of the numbers `0..k` a bet of type `bet_type` on `targets` wins on.
pub open spec fn count_winning(bet_type: BetType, targets: Seq<u8>, k: nat) -> nat
    decreases k,
{
    if k == 0 {
        0
    } else {
        count_winning(bet_type, targets, (k - 1) as nat) + if bet_wins(
            bet_type,
            targets,
            k - 1,
        ) {
            1nat
        } else {
            0nat
        }
    }
}

/// The targets of a bet are well formed: an inside bet names as many
/// distinct numbers of the wheel as its type covers, a dozen or column bet
/// names one of 1, 2 and 3, and the other bets take any targets.
pub open spec fn targets_well_formed(bet_type: BetType, targets: Seq<u8>) -> bool {
    if bet_type.is_inside() {
        &&& targets.len() == bet_type.covered_numbers()
        &&& forall|i: int| 0 <= i < targets.len() ==> #[trigger] targets[i] < 37
        &&& forall|i: int, j: int| 0 <= i < j < targets.len() ==> targets[i] != targets[j]
    } else if bet_type == BetType::Dozen || bet_type == BetType::Column {
        targets.len() == 1 && 1 <= targets[0] <= 3
    } else {
        true
    }
}

/// How many of the numbers `0..k` the sequence holds.
pub open spec fn count_contained(targets: Seq<u8>, k: nat) -> nat
    decreases k,
{
    if k == 0 {
        0
    } else {
        count_contained(targets, (k - 1) as nat) + if targets.contains((k - 1) as u8) {
            1nat
        } else {
            0nat
        }
    }
}

proof fn lemma_count_contained_push(prefix: Seq<u8>, x: u8, k: nat)
    requires
        !prefix.contains(x),
        k <= 256,
    ensures
        count_contained(prefix.push(x), k) == count_contained(prefix, k) + if x < k {
            1nat
        } else {
            0nat
        },
    decreases k,
{
    if k > 0 {
        lemma_count_contained_push(prefix, x, (k - 1) as nat);
        let n = (k - 1) as u8;
        assert(prefix.push(x).contains(n) <==> (prefix.contains(n) || n == x)) by {
            if prefix.push(x).contains(n) {
                let i = choose|i: int| 0 <= i < prefix.push(x).len() && prefix.push(x)[i] == n;
                if i < prefix.len() {
                    assert(prefix[i] == n);
                }
            }
            if prefix.contains(n) {
                let i = choose|i: int| 0 <= i < prefix.len() && prefix[i] == n;
                assert(prefix.push(x)[i] == n);
            }
            if n == x {
                assert(prefix.push(x)[prefix.len() as int] == n);
            }
        }
    }
}

/// Distinct numbers below `k` are counted once each.
proof fn lemma_count_contained_distinct(targets: Seq<u8>, k: nat)
    requires
        k <= 256,
        forall|i: int| 0 <= i < targets.len() ==> #[trigger] targets[i] < k,
        forall|i: int, j: int| 0 <= i < j < targets.len() ==> targets[i] != targets[j],
    ensures
        count_contained(targets, k) == targets.len(),
    decreases targets.len(),
{
    if targets.len() == 0 {
        lemma_count_contained_empty(targets, k);
    } else {
        let prefix = targets.drop_last();
        let x = targets.last();
        assert(prefix.push(x) =~= targets);
        assert forall|i: int| 0 <= i < prefix.len() implies #[trigger] prefix[i] < k by {
            assert(prefix[i] == targets[i]);
        }
        lemma_count_contained_distinct(prefix, k);
        assert(!prefix.contains(x)) by {
            if prefix.contains(x) {
                let i = choose|i: int| 0 <= i < prefix.len() && prefix[i] == x;
                assert(targets[i] == targets[targets.len() - 1]);
            }
        }
        assert(x < k) by {
            assert(targets[targets.len() - 1] < k);
        }
        lemma_count_contained_push(prefix, x, k);
    }
}

proof fn lemma_count_contained_empty(targets: Seq<u8>, k: nat)
    requires
        targets.len() == 0,
    ensures
        count_contained(targets, k) == 0,
    decreases k,
{
    if k > 0 {
        lemma_count_contained_empty(targets, (k - 1) as nat);
    }
}

proof fn lemma_inside_count(bet_type: BetType, targets: Seq<u8>, k: nat)
    requires
        bet_type.is_inside(),
        targets.len() == bet_type.covered_numbers(),
        k <= 256,
    ensures
        count_winning(bet_type, targets, k) == count_contained(targets, k),
    decreases k,
{
    if k > 0 {
        lemma_inside_count(bet_type, targets, (k - 1) as nat);
    }
}

/// Every bet with well-formed targets wins on exactly as many of the 37
/// numbers of the wheel as its type covers.
pub proof fn lemma_winning_numbers_are_covered(bet_type: BetType, targets: Seq<u8>)
    requires
        targets_well_formed(bet_type, targets),
    ensures
        count_winning(bet_type, targets, 37) == bet_type.covered_numbers(),
{
    if bet_type.is_inside() {
        lemma_inside_count(bet_type, targets, 37);
        lemma_count_contained_distinct(targets, 37);
    } else {
        reveal_with_fuel(count_winning, 38);
    }
}

/// The odds are those of a game that keeps one stake in 37: over the 37
/// equally likely numbers, a bet with well-formed targets wins on
/// `covered_numbers` of them, and its stake plus its winnings on those come
/// to 36 stakes. (Settlement pays the winnings alone; the stake stays in
/// the house vault.)
pub proof fn lemma_house_edge(bet_type: BetType, targets: Seq<u8>)
    requires
        targets_well_formed(bet_type, targets),
    ensures
        count_winning(bet_type, targets, 37) * (bet_type.payout_odds() + 1) == 36,
{
    lemma_winning_numbers_are_covered(bet_type, targets);
    lemma_fair_odds(bet_type);
    let c = bet_type.covered_numbers();
    let m = bet_type.payout_odds() + 1;
    assert(c * m == m * c) by (nonlinear_arith);
}

/// Zero loses every bet that does not name it: the dozens, the columns and
/// the even-money bets all lose when the wheel shows 0.
pub proof fn lemma_zero_loses_outside_bets(bet_type: BetType, targets: Seq<u8>)
    requires
        !bet_type.is_inside(),
    ensures
        !bet_wins(bet_type, targets, 0),
{
}

/// On every number from 1 to 36, exactly one of red and black wins, exactly
/// one of odd and even, and exactly one of low and high.
pub proof fn lemma_even_money_bets_split_the_numbers(targets: Seq<u8>, n: int)
    requires
        1 <= n <= 36,
    ensures
        bet_wins(BetType::Red, targets, n) != bet_wins(BetType::Black, targets, n),
        bet_wins(BetType::Odd, targets, n) != bet_wins(BetType::Even, targets, n),
        bet_wins(BetType::Low, targets, n) != bet_wins(BetType::High, targets, n),
{
}

/// The red pockets of a European wheel.
pub open spec fn red_pockets() -> Set<int> {
    set![1int, 3, 5, 7, 9, 12, 14, 16, 18, 19, 21, 23, 25, 27, 30, 32, 34, 36]
}

/// A red bet wins exactly on the numbers that the wheel colours red, and a
/// black bet exactly on the non-zero numbers of the wheel that it colours
/// black: the eighteen red pockets, and the eighteen other pockets from 1
/// to 36.
pub proof fn lemma_colour_bets_follow_the_wheel(targets: Seq<u8>, n: int)
    requires
        1 <= n <= 36,
    ensures
        bet_wins(BetType::Red, targets, n) <==> color_of(n) == Color::Red,
        bet_wins(BetType::Black, targets, n) <==> color_of(n) == Color::Black,
        bet_wins(BetType::Red, targets, n) <==> red_pockets().contains(n),
        bet_wins(BetType::Black, targets, n) <==> !red_pockets().contains(n),
{
    assert(red_pockets().contains(n) <==> (n == 1 || n == 3 || n == 5 || n == 7 || n == 9 || n
        == 12 || n == 14 || n == 16 || n == 18 || n == 19 || n == 21 || n == 23 || n == 25 || n
        == 27 || n == 30 || n == 32 || n == 34 || n == 36));
}

/// The wheel's colours: 0 is the one green pocket, the red pockets are red,
/// every other pocket from 1 to 36 is black, and so is any larger number.
pub proof fn lemma_wheel_colours(n: int)
    requires
        0 <= n <= 255,
    ensures
        color_of(n) == Color::Green <==> n == 0,
        1 <= n <= 36 ==> (color_of(n) == Color::Red <==> red_pockets().contains(n)),
        n > 36 ==> color_of(n) == Color::Black,
        red_pockets().len() == 18,
{
    assert(red_pockets().contains(n) <==> (n == 1 || n == 3 || n == 5 || n == 7 || n == 9 || n
        == 12 || n == 14 || n == 16 || n == 18 || n == 19 || n == 21 || n == 23 || n == 25 || n
        == 27 || n == 30 || n == 32 || n == 34 || n == 36));
}

/// Every bet on the numbers that the table lays out in groups wins exactly
/// on its group: the first, second and third dozens are 1-12, 13-24 and
/// 25-36; the columns hold the numbers of 1-36 that leave the column's
/// remainder modulo 3; odd, even, low (1-18) and high (19-36) are what they
/// say, and none of them wins on 0.
pub proof fn lemma_group_bets_win_on_their_group(t: u8, n: int)
    requires
        1 <= t <= 3,
        0 <= n <= 36,
    ensures
        bet_wins(BetType::Dozen, seq![t], n) <==> 12 * (t - 1) + 1 <= n <= 12 * t,
        bet_wins(BetType::Column, seq![t], n) <==> 1 <= n && (n - t) % 3 == 0,
        bet_wins(BetType::Odd, seq![t], n) <==> (n == 1 || n == 3 || n == 5 || n == 7 || n == 9
            || n == 11 || n == 13 || n == 15 || n == 17 || n == 19 || n == 21 || n == 23 || n == 25
            || n == 27 || n == 29 || n == 31 || n == 33 || n == 35),
        bet_wins(BetType::Even, seq![t], n) <==> (1 <= n && !bet_wins(BetType::Odd, seq![t], n)),
        bet_wins(BetType::Low, seq![t], n) <==> 1 <= n <= 18,
        bet_wins(BetType::High, seq![t], n) <==> 19 <= n <= 36,
{
    assert(seq![t][0] == t);
}

/// The three dozens do not overlap and together cover 1 to 36, and so do
/// the three columns.
pub proof fn lemma_dozens_and_columns_partition_the_numbers(n: int)
    requires
        1 <= n <= 36,
    ensures
        exists|t: u8|
            1 <= t <= 3 && bet_wins(BetType::Dozen, seq![t], n),
        forall|s: u8, t: u8|
            1 <= s <= 3 && 1 <= t <= 3 && bet_wins(BetType::Dozen, seq![s], n) && bet_wins(
                BetType::Dozen,
                seq![t],
                n,
            ) ==> s == t,
        exists|t: u8|
            1 <= t <= 3 && bet_wins(BetType::Column, seq![t], n),
        forall|s: u8, t: u8|
            1 <= s <= 3 && 1 <= t <= 3 && bet_wins(BetType::Column, seq![s], n) && bet_wins(
                BetType::Column,
                seq![t],
                n,
            ) ==> s == t,
{
    let d: u8 = ((n - 1) / 12 + 1) as u8;
    lemma_group_bets_win_on_their_group(d, n);
    let c: u8 = (if n % 3 == 0 {
        3
    } else {
        n % 3
    }) as u8;
    lemma_group_bets_win_on_their_group(c, n);
    assert forall|s: u8, t: u8|
        1 <= s <= 3 && 1 <= t <= 3 && bet_wins(BetType::Dozen, seq![s], n) && bet_wins(
            BetType::Dozen,
            seq![t],
            n,
        ) implies s == t by {
        lemma_group_bets_win_on_their_group(s, n);
        lemma_group_bets_win_on_their_group(t, n);
    }
    assert forall|s: u8, t: u8|
        1 <= s <= 3 && 1 <= t <= 3 && bet_wins(BetType::Column, seq![s], n) && bet_wins(
            BetType::Column,
            seq![t],
            n,
        ) implies s == t by {
        lemma_group_bets_win_on_their_group(s, n);
        lemma_group_bets_win_on_their_group(t, n);
    }
}

} // verus!
