use vstd::prelude::*;

use crate::constants::{MAX_BETS, MAX_BET_TARGETS};
use crate::error::{ErrorCodes, RugletteError};
use crate::lifecycle::round_step;
use crate::state::{Bet, BetState, GameState, RoundState};
use crate::types::{GameStatus, Pubkey};
use crate::utils::{lemma_take_step, transfer, transfer_allowed};

verus! {

/// Why a stake of `amount` lamports is refused by a game that takes stakes
/// from `min_bet` to `max_bet`.
pub open spec fn bet_amount_error(amount: u64, min_bet: u64, max_bet: u64) -> Option<ErrorCodes> {
    if amount < min_bet {
        Some(ErrorCodes::BetTooSmall)
    } else if amount > max_bet {
        Some(ErrorCodes::BetTooLarge)
    } else {
        None
    }
}

/// Why the first refused bet, in order, is refused; `None` where all are taken.
pub open spec fn first_bet_error(bets: Seq<Bet>, min_bet: u64, max_bet: u64) -> Option<ErrorCodes>
    decreases bets.len(),
{
    if bets.len() == 0 {
        None
    } else {
        match first_bet_error(bets.drop_last(), min_bet, max_bet) {
            Some(e) => Some(e),
            None => bet_amount_error(bets.last().amount, min_bet, max_bet),
        }
    }
}

/// The lamports that the bets stake in all.
pub open spec fn total_staked(bets: Seq<Bet>) -> int
    decreases bets.len(),
{
    if bets.len() == 0 {
        0
    } else {
        total_staked(bets.drop_last()) + bets.last().amount
    }
}

/// The inputs on which placing bets runs through without an unchecked
/// overflow: every running total of the stakes, as far as the bets are
/// taken, fits in a `u64`, and so does the round's new total wagered.
pub open spec fn place_bet_in_range(round: RoundState, game: GameState, player: Seq<u8>, bets: Seq<Bet>) -> bool {
    (round.player@ == player && round.status == GameStatus::AcceptingBets && !game.is_paused) ==> {
        &&& forall|k: int|
            0 <= k <= bets.len() && #[trigger] first_bet_error(bets.take(k), game.min_bet, game.max_bet)
                is None ==> total_staked(bets.take(k)) <= u64::MAX
        &&& first_bet_error(bets, game.min_bet, game.max_bet) is None ==> round.total_wagered
            + total_staked(bets) <= u64::MAX
    }
}

/// Whether the bets fit in a round's bets account: at most `MAX_BETS` bets,
/// each naming at most `MAX_BET_TARGETS` numbers.
pub open spec fn bets_fit(bets: Seq<Bet>) -> bool {
    &&& bets.len() <= MAX_BETS
    &&& forall|i: int| 0 <= i < bets.len() ==> #[trigger] bets[i].targets.len() <= MAX_BET_TARGETS
}

fn bets_fit_account(bets: &Vec<Bet>) -> (r: bool)
    ensures
        r == bets_fit(bets@),
{
    if bets.len() > MAX_BETS {
        return false;
    }
    let mut i: usize = 0;
    while i < bets.len()
        invariant
            0 <= i <= bets@.len(),
            forall|j: int| 0 <= j < i ==> #[trigger] bets@[j].targets.len() <= MAX_BET_TARGETS,
        decreases bets@.len() - i,
    {
        if bets[i].targets.len() > MAX_BET_TARGETS {
            return false;
        }
        i = i + 1;
    }
    true
}

/// The stakes are taken exactly when every one of them lies within the
/// game's limits; where one does not, the first such stake in order decides
/// the refusal: too small under `min_bet`, too large over `max_bet`.
pub proof fn lemma_bet_limits(bets: Seq<Bet>, min_bet: u64, max_bet: u64)
    ensures
        first_bet_error(bets, min_bet, max_bet) is None <==> forall|i: int|
            0 <= i < bets.len() ==> min_bet <= #[trigger] bets[i].amount <= max_bet,
        forall|k: int|
            0 <= k < bets.len() && (forall|i: int| 0 <= i < k ==> min_bet <= #[trigger] bets[i].amount
                <= max_bet) && !(min_bet <= #[trigger] bets[k].amount <= max_bet) ==> first_bet_error(
                bets,
                min_bet,
                max_bet,
            ) == Some(
                if bets[k].amount < min_bet {
                    ErrorCodes::BetTooSmall
                } else {
                    ErrorCodes::BetTooLarge
                },
            ),
    decreases bets.len(),
{
    if bets.len() > 0 {
        let prefix = bets.drop_last();
        lemma_bet_limits(prefix, min_bet, max_bet);
        assert forall|i: int| 0 <= i < prefix.len() implies prefix[i] == bets[i] by {}
        assert forall|k: int|
            0 <= k < bets.len() && (forall|i: int| 0 <= i < k ==> min_bet <= #[trigger] bets[i].amount
                <= max_bet) && !(min_bet <= #[trigger] bets[k].amount <= max_bet) implies first_bet_error(
            bets,
            min_bet,
            max_bet,
        ) == Some(
            if bets[k].amount < min_bet {
                ErrorCodes::BetTooSmall
            } else {
                ErrorCodes::BetTooLarge
            },
        ) by {
            if k < prefix.len() {
                assert(prefix[k] == bets[k]);
                assert forall|i: int| 0 <= i < k implies min_bet <= #[trigger] prefix[i].amount <= max_bet by {
                    assert(prefix[i] == bets[i]);
                }
            } else {
                assert forall|i: int| 0 <= i < prefix.len() implies min_bet <= #[trigger] prefix[i].amount <= max_bet by {
                    assert(prefix[i] == bets[i]);
                }
            }
        }
        if first_bet_error(bets, min_bet, max_bet) is None {
            assert forall|i: int| 0 <= i < bets.len() implies min_bet <= #[trigger] bets[i].amount <= max_bet by {
                if i < prefix.len() {
                    assert(prefix[i] == bets[i]);
                }
            }
        }
    }
}

/// No more than `MAX_BETS` bets whose targets are those of their type fit
/// in the bets account: an inside bet names as many numbers as its type
/// covers (up to six, for a six-line), and every other bet names at most
/// one. Placing such bets is never refused for want of room.
pub proof fn lemma_well_formed_bets_fit(bets: Seq<Bet>)
    requires
        bets.len() <= MAX_BETS,
        forall|i: int|
            0 <= i < bets.len() ==> if (#[trigger] bets[i]).bet_type.is_inside() {
                bets[i].targets.len() == bets[i].bet_type.covered_numbers()
            } else {
                bets[i].targets.len() <= 1
            },
    ensures
        bets_fit(bets),
        forall|round: RoundState, game: GameState, player: Seq<u8>, lamports: u64|
            #[trigger] place_bet_outcome(round, game, player, bets, lamports)
                != Err::<(), RugletteError>(RugletteError::AccountDidNotSerialize),
{
    assert forall|i: int| 0 <= i < bets.len() implies #[trigger] bets[i].targets.len() <= 6 by {
        let b = bets[i];
        if b.bet_type.is_inside() {
            assert(b.bet_type.covered_numbers() <= 6);
        }
    }
}

/// Whether placing `bets` in `round` succeeds, and if not, why. Bets that do
/// not fit in the bets account are refused last, when the account is written.
pub open spec fn place_bet_outcome(
    round: RoundState,
    game: GameState,
    player: Seq<u8>,
    bets: Seq<Bet>,
    player_lamports: u64,
) -> Result<(), RugletteError> {
    if round.player@ != player {
        Err(RugletteError::Code(ErrorCodes::InvalidPlayer))
    } else if round.status != GameStatus::AcceptingBets {
        Err(RugletteError::Code(ErrorCodes::RoundNotAcceptingBets))
    } else if game.is_paused {
        Err(RugletteError::Code(ErrorCodes::GamePaused))
    } else {
        match first_bet_error(bets, game.min_bet, game.max_bet) {
            Some(e) => Err(RugletteError::Code(e)),
            None => if !transfer_allowed(
                player_lamports,
                (round.total_wagered + total_staked(bets)) as u64,
            ) {
                Err(RugletteError::Code(ErrorCodes::NotEnoughFundsToPlay))
            } else if !bets_fit(bets) {
                Err(RugletteError::AccountDidNotSerialize)
            } else {
                Ok(())
            },
        }
    }
}

/// The bets recorded for a round, and the lamports that the player then
/// sends to the house vault.
pub struct PlacedBets {
    pub bet_state: BetState,
    pub transfer_amount: u64,
}

/// Places the player's bets in a round that accepts bets: every stake must
/// lie within the game's limits, the round's total wagered grows by the sum
/// of the stakes, and the player must hold that new total, which the player
/// then sends to the house vault. The bets must fit in the bets account. On
/// an error the round is left as it was.
pub fn place_bet(
    round: &mut RoundState,
    game: &GameState,
    player: &Pubkey,
    round_key: Pubkey,
    bets: Vec<Bet>,
    timestamp: i64,
    bets_bump: u8,
    player_lamports: u64,
) -> (r: Result<PlacedBets, RugletteError>)
    requires
        place_bet_in_range(*old(round), *game, player@, bets@),
    ensures
        match r {
            Ok(placed) => {
                &&& place_bet_outcome(*old(round), *game, player@, bets@, player_lamports) is Ok
                &&& placed.bet_state.round == round_key
                &&& placed.bet_state.bets@ == bets@
                &&& placed.bet_state.timestamp == timestamp
                &&& placed.bet_state.bump == bets_bump
                &&& placed.transfer_amount == final(round).total_wagered
                &&& *final(round) == (RoundState {
                    total_wagered: (old(round).total_wagered + total_staked(bets@)) as u64,
                    ..*old(round)
                })
            },
            Err(e) => {
                &&& place_bet_outcome(*old(round), *game, player@, bets@, player_lamports) == Err::<(), RugletteError>(e)
                &&& *final(round) == *old(round)
            },
        },
        old(round).wf() ==> final(round).wf(),
        r is Ok ==> round_step(*old(round), *final(round)),
{
    if !round.player.key_eq(player) {
        return Err(RugletteError::Code(ErrorCodes::InvalidPlayer));
    }
    if round.status != GameStatus::AcceptingBets {
        return Err(RugletteError::Code(ErrorCodes::RoundNotAcceptingBets));
    }
    if game.is_paused {
        return Err(RugletteError::Code(ErrorCodes::GamePaused));
    }
    let ghost all = bets@;
    let mut total_bet_amount: u64 = 0;
    let mut i: usize = 0;
    assert(all.take(0) =~= Seq::<Bet>::empty());
    while i < bets.len()
        invariant
            all == bets@,
            0 <= i <= all.len(),
            place_bet_in_range(*round, *game, player@, all),
            round.player@ == player@,
            round.status == GameStatus::AcceptingBets,
            !game.is_paused,
            first_bet_error(all.take(i as int), game.min_bet, game.max_bet) is None,
            total_staked(all.take(i as int)) == total_bet_amount,
        decreases all.len() - i,
    {
        proof {
            lemma_take_step(all, i as int);
        }
        let amount = bets[i].amount;
        if amount < game.min_bet || amount > game.max_bet {
            let ghost e = first_bet_error(all.take(i + 1), game.min_bet, game.max_bet);
            assert(e is Some);
            assert forall|k: int| i + 1 <= k <= all.len() implies #[trigger] first_bet_error(
                all.take(k),
                game.min_bet,
                game.max_bet,
            ) == e by {
                lemma_error_extends(all, game.min_bet, game.max_bet, i + 1, k);
            }
            assert(all.take(all.len() as int) =~= all);
            if amount < game.min_bet {
                return Err(RugletteError::Code(ErrorCodes::BetTooSmall));
            } else {
                return Err(RugletteError::Code(ErrorCodes::BetTooLarge));
            }
        }
        assert(first_bet_error(all.take(i + 1), game.min_bet, game.max_bet) is None);
        assert(total_staked(all.take(i + 1)) == total_bet_amount + amount);
        total_bet_amount = total_bet_amount + amount;
        i = i + 1;
    }
    assert(all.take(all.len() as int) =~= all);
    let new_total = round.total_wagered + total_bet_amount;
    match transfer(player_lamports, new_total) {
        Ok(()) => {},
        Err(e) => return Err(e),
    }
    if !bets_fit_account(&bets) {
        return Err(RugletteError::AccountDidNotSerialize);
    }
    round.total_wagered = new_total;
    let bet_state = BetState { round: round_key, bets, timestamp, bump: bets_bump };
    Ok(PlacedBets { bet_state, transfer_amount: new_total })
}

/// Whether [`place_bet`] can be called on these inputs: where it returns
/// false, placing the bets overflows an unchecked sum.
pub fn place_bet_within_range(round: &RoundState, game: &GameState, player: &Pubkey, bets: &Vec<Bet>) -> (r: bool)
    ensures
        r == place_bet_in_range(*round, *game, player@, bets@),
{
    if !round.player.key_eq(player) || round.status != GameStatus::AcceptingBets || game.is_paused {
        return true;
    }
    let ghost all = bets@;
    let mut total: u64 = 0;
    let mut i: usize = 0;
    assert(all.take(0) =~= Seq::<Bet>::empty());
    while i < bets.len()
        invariant
            all == bets@,
            0 <= i <= all.len(),
            round.player@ == player@,
            round.status == GameStatus::AcceptingBets,
            !game.is_paused,
            first_bet_error(all.take(i as int), game.min_bet, game.max_bet) is None,
            total_staked(all.take(i as int)) == total,
            forall|k: int|
                0 <= k <= i && #[trigger] first_bet_error(all.take(k), game.min_bet, game.max_bet)
                    is None ==> total_staked(all.take(k)) <= u64::MAX,
        decreases all.len() - i,
    {
        proof {
            lemma_take_step(all, i as int);
        }
        let amount = bets[i].amount;
        if amount < game.min_bet || amount > game.max_bet {
            assert forall|k: int| i + 1 <= k <= all.len() implies #[trigger] first_bet_error(
                all.take(k),
                game.min_bet,
                game.max_bet,
            ) is Some by {
                lemma_error_extends(all, game.min_bet, game.max_bet, i + 1, k);
            }
            assert(all.take(all.len() as int) =~= all);
            return true;
        }
        if amount > u64::MAX - total {
            assert(first_bet_error(all.take(i + 1), game.min_bet, game.max_bet) is None);
            assert(total_staked(all.take(i + 1)) == total + amount);
            return false;
        }
        total = total + amount;
        i = i + 1;
    }
    assert(all.take(all.len() as int) =~= all);
    round.total_wagered <= u64::MAX - total
}

/// Once a prefix of the bets holds a refused bet, every longer prefix is
/// refused for the same reason.
proof fn lemma_error_extends(bets: Seq<Bet>, min_bet: u64, max_bet: u64, i: int, k: int)
    requires
        0 <= i <= k <= bets.len(),
        first_bet_error(bets.take(i), min_bet, max_bet) is Some,
    ensures
        first_bet_error(bets.take(k), min_bet, max_bet) == first_bet_error(bets.take(i), min_bet, max_bet),
    decreases k - i,
{
    if i < k {
        lemma_take_step(bets, i);
        lemma_error_extends(bets, min_bet, max_bet, i + 1, k);
    }
}

} // verus!
