use vstd::prelude::*;

use crate::error::{ErrorCodes, RugletteError};
use crate::lifecycle::round_step;
use crate::state::{Bet, BetState, GameState, RoundState};
use crate::types::{BetType, Color, GameStatus, Pubkey};
use crate::utils::{bet_wins, lemma_take_step, transfer};

verus! {

/// What a bet of type `bet_type` on `targets` staking `amount` pays when the
/// wheel shows `n`: the stake times the payout odds on a win, 0 on a loss,
/// and `None` where the winnings do not fit in a `u64`.
pub open spec fn bet_payout(bet_type: BetType, targets: Seq<u8>, amount: u64, n: int) -> Option<int> {
    if bet_wins(bet_type, targets, n) {
        let p = amount * bet_type.payout_odds();
        if p <= u64::MAX {
            Some(p)
        } else {
            None
        }
    } else {
        Some(0)
    }
}

fn targets_contain(targets: &Vec<u8>, n: u8) -> (r: bool)
    ensures
        r == targets@.contains(n),
{
    let mut i: usize = 0;
    while i < targets.len()
        invariant
            0 <= i <= targets@.len(),
            forall|j: int| 0 <= j < i ==> targets@[j] != n,
        decreases targets@.len() - i,
    {
        if targets[i] == n {
            assert(targets@[i as int] == n);
            return true;
        }
        i = i + 1;
    }
    false
}

/// What `bet` pays when the wheel shows `random_number`.
pub fn calculate_payout(bet: &Bet, random_number: u8) -> (r: Result<u64, RugletteError>)
    ensures
        match bet_payout(bet.bet_type, bet.targets@, bet.amount, random_number as int) {
            Some(p) => r == Ok::<u64, RugletteError>(p as u64),
            None => r == Err::<u64, RugletteError>(RugletteError::ArithmeticOverflow),
        },
{
    let n = random_number;
    let won = match bet.bet_type {
        BetType::Odd => n > 0 && n % 2 == 1,
        BetType::Even => n > 0 && n % 2 == 0,
        BetType::Low => n >= 1 && n <= 18,
        BetType::High => n >= 19 && n <= 36,
        BetType::Red => {
            let color = BetType::get_color(n);
            color == Color::Red
        },
        BetType::Black => {
            let color = BetType::get_color(n);
            color == Color::Black
        },
        BetType::Straight => {
            if bet.targets.len() == 1 {
                proof {
                    assert(bet.targets@.contains(n) <==> bet.targets@[0] == n);
                }
                n == bet.targets[0]
            } else {
                false
            }
        },
        BetType::Split => {
            if bet.targets.len() == 2 {
                targets_contain(&bet.targets, n)
            } else {
                false
            }
        },
        BetType::Street => {
            if bet.targets.len() == 3 {
                targets_contain(&bet.targets, n)
            } else {
                false
            }
        },
        BetType::Corner => {
            if bet.targets.len() == 4 {
                targets_contain(&bet.targets, n)
            } else {
                false
            }
        },
        BetType::Sixline => {
            if bet.targets.len() == 6 {
                targets_contain(&bet.targets, n)
            } else {
                false
            }
        },
        BetType::Dozen => {
            if bet.targets.len() == 1 {
                match bet.targets[0] {
                    1 => n >= 1 && n <= 12,
                    2 => n >= 13 && n <= 24,
                    3 => n >= 25 && n <= 36,
                    _ => false,
                }
            } else {
                false
            }
        },
        BetType::Column => {
            if bet.targets.len() == 1 {
                match bet.targets[0] {
                    1 => n % 3 == 1,
                    2 => n % 3 == 2,
                    3 => n > 0 && n % 3 == 0,
                    _ => false,
                }
            } else {
                false
            }
        },
    };
    assert(won == bet_wins(bet.bet_type, bet.targets@, n as int));
    if won {
        let multiplier = bet.bet_type.multiplier() as u64;
        match bet.amount.checked_mul(multiplier) {
            Some(p) => Ok(p),
            None => Err(RugletteError::ArithmeticOverflow),
        }
    } else {
        Ok(0)
    }
}

/// What the bets pay in all when the wheel shows `n`: `None` where one of
/// them overflows.
pub open spec fn total_payout(bets: Seq<Bet>, n: int) -> Option<int>
    decreases bets.len(),
{
    if bets.len() == 0 {
        Some(0)
    } else {
        match total_payout(bets.drop_last(), n) {
            None => None,
            Some(t) => match bet_payout(bets.last().bet_type, bets.last().targets@, bets.last().amount, n) {
                None => None,
                Some(p) => Some(t + p),
            },
        }
    }
}

/// Every running total of the payouts, up to the first bet that overflows,
/// fits in a `u64`.
pub open spec fn payout_sums_fit(bets: Seq<Bet>, n: int) -> bool {
    forall|k: int|
        0 <= k <= bets.len() ==> (#[trigger] total_payout(bets.take(k), n) matches Some(t) ==> t
            <= u64::MAX)
}

/// The house's share of a payout of `payout` lamports at `fee_bp` basis points.
pub open spec fn house_fee(payout: int, fee_bp: int) -> int {
    payout * fee_bp / 10000
}

/// What settling a round gives: the lamports that the house vault sends to
/// the player (`None` when the bets pay nothing), or why the round cannot be
/// settled.
pub open spec fn settle_outcome(
    round: RoundState,
    bets: Seq<Bet>,
    fee_bp: u16,
    player: Seq<u8>,
    vault_lamports: u64,
) -> Result<Option<u64>, RugletteError> {
    if round.player@ != player {
        Err(RugletteError::Code(ErrorCodes::InvalidPlayer))
    } else if round.status != GameStatus::ResultReady {
        Err(RugletteError::Code(ErrorCodes::ResultNotReady))
    } else {
        match round.winning_number {
            None => Err(RugletteError::Code(ErrorCodes::ResultNotReady)),
            Some(n) => match total_payout(bets, n as int) {
                None => Err(RugletteError::ArithmeticOverflow),
                Some(t) => if t == 0 {
                    Ok(None)
                } else if t * fee_bp > u64::MAX {
                    Err(RugletteError::ArithmeticOverflow)
                } else if t - house_fee(t, fee_bp as int) > vault_lamports {
                    Err(RugletteError::Code(ErrorCodes::NotEnoughFundsToPlay))
                } else {
                    Ok(Some((t - house_fee(t, fee_bp as int)) as u64))
                },
            },
        }
    }
}

/// The inputs on which settling runs through without an unchecked overflow:
/// the running totals of the payouts fit in a `u64`, and the house fee is no
/// larger than the payout it is taken from.
pub open spec fn settle_in_range(round: RoundState, bets: Seq<Bet>, fee_bp: u16, player: Seq<u8>) -> bool {
    (round.player@ == player && round.status == GameStatus::ResultReady
        && round.winning_number is Some) ==> {
        let n = round.winning_number->0 as int;
        &&& payout_sums_fit(bets, n)
        &&& total_payout(bets, n) matches Some(t) ==> (t > 0 && t * fee_bp <= u64::MAX ==> house_fee(
            t,
            fee_bp as int,
        ) <= t)
    }
}

/// Settling checks the house vault against what it actually sends: once the
/// signer and the round are right and nothing overflows, a round whose bets
/// pay `t > 0` lamports sends the player `t` less the fee of `fee_bp` basis
/// points on `t`, and is refused for want of funds exactly when the vault
/// holds less than that; a round whose bets pay nothing sends nothing.
pub proof fn lemma_settle_checks_the_net_transfer(
    round: RoundState,
    bets: Seq<Bet>,
    fee_bp: u16,
    player: Seq<u8>,
    vault_lamports: u64,
    t: int,
)
    requires
        round.player@ == player,
        round.status == GameStatus::ResultReady,
        round.winning_number is Some,
        total_payout(bets, round.winning_number->0 as int) == Some(t),
        t * fee_bp <= u64::MAX,
    ensures
        t == 0 ==> settle_outcome(round, bets, fee_bp, player, vault_lamports) == Ok::<
            Option<u64>,
            RugletteError,
        >(None),
        t > 0 ==> {
            let net = t - t * fee_bp / 10000;
            &&& net > vault_lamports ==> settle_outcome(round, bets, fee_bp, player, vault_lamports)
                == Err::<Option<u64>, RugletteError>(
                RugletteError::Code(ErrorCodes::NotEnoughFundsToPlay),
            )
            &&& net <= vault_lamports ==> settle_outcome(
                round,
                bets,
                fee_bp,
                player,
                vault_lamports,
            ) == Ok::<Option<u64>, RugletteError>(Some(net as u64))
        },
{
}

/// A fee of at most 10 000 basis points is never larger than the payout it
/// is taken from.
pub proof fn lemma_fee_within_payout(payout: int, fee_bp: int)
    requires
        0 <= payout,
        0 <= fee_bp <= 10000,
    ensures
        0 <= house_fee(payout, fee_bp) <= payout,
{
    assert(0 <= payout * fee_bp <= payout * 10000) by (nonlinear_arith)
        requires
            0 <= payout,
            0 <= fee_bp <= 10000,
    ;
}

/// Settles the bets of a round whose result is ready: adds up what every bet
/// pays on the winning number, records that as the round's payout, takes the
/// house fee from it, checks that the house vault can pay the rest, and marks
/// the round settled. The result is the lamports that the vault then sends to
/// the player, `None` where the bets pay nothing. On an error the round is
/// left as it was.
pub fn settle_bets(
    round: &mut RoundState,
    bets: &BetState,
    game: &GameState,
    player: &Pubkey,
    house_vault_lamports: u64,
) -> (r: Result<Option<u64>, RugletteError>)
    requires
        settle_in_range(*old(round), bets.bets@, game.house_fee_basis_points, player@),
    ensures
        r == settle_outcome(
            *old(round),
            bets.bets@,
            game.house_fee_basis_points,
            player@,
            house_vault_lamports,
        ),
        r is Err ==> *final(round) == *old(round),
        r is Ok ==> *final(round) == (RoundState {
            payout_amount: Some(
                total_payout(bets.bets@, old(round).winning_number->0 as int)->0 as u64,
            ),
            status: GameStatus::BetsSettled,
            ..*old(round)
        }),
        old(round).wf() ==> final(round).wf(),
        r is Ok ==> round_step(*old(round), *final(round)),
{
    if !round.player.key_eq(player) {
        return Err(RugletteError::Code(ErrorCodes::InvalidPlayer));
    }
    if round.status != GameStatus::ResultReady {
        return Err(RugletteError::Code(ErrorCodes::ResultNotReady));
    }
    let random_number = match round.winning_number {
        Some(number) => number,
        None => return Err(RugletteError::Code(ErrorCodes::ResultNotReady)),
    };
    let ghost n = random_number as int;
    let ghost all = bets.bets@;

    let mut payout_amount: u64 = 0;
    let mut i: usize = 0;
    assert(all.take(0) =~= Seq::<Bet>::empty());
    while i < bets.bets.len()
        invariant
            all == bets.bets@,
            n == random_number as int,
            *round == *old(round),
            round.player@ == player@,
            round.status == GameStatus::ResultReady,
            round.winning_number == Some(random_number),
            0 <= i <= all.len(),
            payout_sums_fit(all, n),
            total_payout(all.take(i as int), n) == Some(payout_amount as int),
        decreases all.len() - i,
    {
        proof {
            lemma_take_step(all, i as int);
        }
        let p = match calculate_payout(&bets.bets[i], random_number) {
            Ok(p) => p,
            Err(e) => {
                assert(total_payout(all.take(i + 1), n) is None);
                assert forall|k: int| i + 1 <= k <= all.len() implies #[trigger] total_payout(all.take(k), n) is None by {
                    lemma_none_extends(all, n, i + 1, k);
                }
                assert(all.take(all.len() as int) =~= all);
                return Err(e);
            },
        };
        assert(total_payout(all.take(i + 1), n) == Some(payout_amount + p));
        payout_amount = payout_amount + p;
        i = i + 1;
    }
    assert(all.take(all.len() as int) =~= all);

    let mut transfer_amount: Option<u64> = None;
    if payout_amount > 0 {
        let fee_bp = game.house_fee_basis_points as u64;
        let house_fee = match payout_amount.checked_mul(fee_bp) {
            Some(x) => x / 10_000,
            None => return Err(RugletteError::ArithmeticOverflow),
        };
        let amount = payout_amount - house_fee;
        match transfer(house_vault_lamports, amount) {
            Ok(()) => {},
            Err(e) => return Err(e),
        }
        transfer_amount = Some(amount);
    }
    round.payout_amount = Some(payout_amount);
    round.status = GameStatus::BetsSettled;
    Ok(transfer_amount)
}

/// Whether [`settle_bets`] can be called on these inputs: where it returns
/// false, settling overflows an unchecked sum or takes a house fee larger
/// than the payout.
pub fn settle_bets_within_range(round: &RoundState, bets: &BetState, game: &GameState, player: &Pubkey) -> (r: bool)
    ensures
        r == settle_in_range(*round, bets.bets@, game.house_fee_basis_points, player@),
{
    if !round.player.key_eq(player) || round.status != GameStatus::ResultReady {
        return true;
    }
    let random_number = match round.winning_number {
        Some(number) => number,
        None => return true,
    };
    let ghost n = random_number as int;
    let ghost all = bets.bets@;
    let mut total: u64 = 0;
    let mut i: usize = 0;
    assert(all.take(0) =~= Seq::<Bet>::empty());
    while i < bets.bets.len()
        invariant
            all == bets.bets@,
            n == random_number as int,
            round.player@ == player@,
            round.status == GameStatus::ResultReady,
            round.winning_number == Some(random_number),
            0 <= i <= all.len(),
            total_payout(all.take(i as int), n) == Some(total as int),
            forall|k: int|
                0 <= k <= i ==> (#[trigger] total_payout(all.take(k), n) matches Some(t) ==> t
                    <= u64::MAX),
        decreases all.len() - i,
    {
        proof {
            lemma_take_step(all, i as int);
        }
        let p = match calculate_payout(&bets.bets[i], random_number) {
            Ok(p) => p,
            Err(_) => {
                assert forall|k: int| i + 1 <= k <= all.len() implies #[trigger] total_payout(all.take(k), n) is None by {
                    lemma_none_extends(all, n, i + 1, k);
                }
                assert(all.take(all.len() as int) =~= all);
                return true;
            },
        };
        if p > u64::MAX - total {
            assert(total_payout(all.take(i + 1), n) == Some(total + p));
            return false;
        }
        assert(total_payout(all.take(i + 1), n) == Some(total + p));
        total = total + p;
        i = i + 1;
    }
    assert(all.take(all.len() as int) =~= all);
    if total == 0 {
        return true;
    }
    let fee_bp = game.house_fee_basis_points as u64;
    match total.checked_mul(fee_bp) {
        Some(x) => x / 10_000 <= total,
        None => true,
    }
}

/// Once a prefix of the bets overflows, every longer prefix does too.
proof fn lemma_none_extends(bets: Seq<Bet>, n: int, i: int, k: int)
    requires
        0 <= i <= k <= bets.len(),
        total_payout(bets.take(i), n) is None,
    ensures
        total_payout(bets.take(k), n) is None,
    decreases k - i,
{
    if i < k {
        lemma_take_step(bets, i);
        assert(total_payout(bets.take(i + 1), n) is None);
        lemma_none_extends(bets, n, i + 1, k);
    }
}

} // verus!
