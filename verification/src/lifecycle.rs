use vstd::prelude::*;

use crate::instructions::verify_randomness::result_recorded;
use crate::state::RoundState;
use crate::types::GameStatus;

verus! {

/// The place of a status in the life of a round.
pub open spec fn status_rank(status: GameStatus) -> int {
    match status {
        GameStatus::AcceptingBets => 0,
        GameStatus::WaitingForVRF => 1,
        GameStatus::ResultReady => 2,
        GameStatus::BetsSettled => 3,
        GameStatus::PayoutsProcessed => 4,
        GameStatus::Error => 5,
    }
}

/// `new` is what a successful instruction makes of the round `old`: bets
/// placed (only the total wagered changes), the wheel spun, the randomness
/// revealed, or the bets settled.
pub open spec fn round_step(old: RoundState, new: RoundState) -> bool {
    ||| {
        &&& old.status == GameStatus::AcceptingBets
        &&& new == (RoundState { total_wagered: new.total_wagered, ..old })
    }
    ||| {
        &&& old.status == GameStatus::AcceptingBets
        &&& new == (RoundState {
            vrf_account: new.vrf_account,
            commit_slot: new.commit_slot,
            status: GameStatus::WaitingForVRF,
            ..old
        })
    }
    ||| {
        &&& old.status == GameStatus::WaitingForVRF
        &&& result_recorded(old, new, new.result_buffer@)
    }
    ||| {
        &&& old.status == GameStatus::ResultReady
        &&& new.payout_amount is Some
        &&& new == (RoundState {
            payout_amount: new.payout_amount,
            status: GameStatus::BetsSettled,
            ..old
        })
    }
}

/// A step keeps the status or moves it one place forward, and starts from a
/// round that is not yet settled.
pub proof fn lemma_step_moves_forward(old: RoundState, new: RoundState)
    requires
        round_step(old, new),
    ensures
        status_rank(old.status) <= status_rank(new.status) <= status_rank(old.status) + 1,
        status_rank(old.status) <= 2,
        status_rank(new.status) == status_rank(old.status) ==> old.status
            == GameStatus::AcceptingBets,
{
}

proof fn lemma_ranks_grow(rounds: Seq<RoundState>, i: int, j: int)
    requires
        0 <= i <= j < rounds.len(),
        forall|k: int| 0 <= k < rounds.len() - 1 ==> #[trigger] round_step(rounds[k], rounds[k + 1]),
    ensures
        status_rank(rounds[i].status) <= status_rank(rounds[j].status),
    decreases j - i,
{
    if i < j {
        lemma_ranks_grow(rounds, i, j - 1);
        let k = j - 1;
        assert(round_step(rounds[k], rounds[k + 1]));
        lemma_step_moves_forward(rounds[k], rounds[k + 1]);
    }
}

proof fn lemma_rank_reached(rounds: Seq<RoundState>, n: int, target: int) -> (i: int)
    requires
        0 < n <= rounds.len(),
        forall|k: int| 0 <= k < rounds.len() - 1 ==> #[trigger] round_step(rounds[k], rounds[k + 1]),
        status_rank(rounds[0].status) <= target <= status_rank(rounds[n - 1].status),
    ensures
        0 <= i < n,
        status_rank(rounds[i].status) == target,
    decreases n,
{
    if status_rank(rounds[n - 1].status) == target {
        n - 1
    } else if n >= 2 && status_rank(rounds[n - 2].status) >= target {
        lemma_rank_reached(rounds, n - 1, target)
    } else {
        if n >= 2 {
            let k = n - 2;
            assert(round_step(rounds[k], rounds[k + 1]));
            lemma_step_moves_forward(rounds[k], rounds[k + 1]);
        }
        n - 1
    }
}

/// A round only moves forward. Along any run of successful instructions on
/// one round, the status never goes back and moves at most one place per
/// instruction, a status once left is never visited again, a settled round
/// takes no further instruction, and a run that goes from accepting bets to
/// settled passes through waiting for randomness and then result ready.
pub proof fn lemma_round_status_moves_forward(rounds: Seq<RoundState>)
    requires
        rounds.len() > 0,
        forall|k: int| 0 <= k < rounds.len() - 1 ==> #[trigger] round_step(rounds[k], rounds[k + 1]),
    ensures
        forall|i: int, j: int|
            0 <= i <= j < rounds.len() ==> status_rank(rounds[i].status) <= status_rank(
                rounds[j].status,
            ),
        forall|k: int|
            0 <= k < rounds.len() - 1 ==> status_rank(#[trigger] rounds[k + 1].status)
                <= status_rank(rounds[k].status) + 1,
        forall|i: int, j: int, k: int|
            #![trigger rounds[i], rounds[j], rounds[k]]
            0 <= i <= j <= k < rounds.len() && rounds[i].status == rounds[k].status
                ==> rounds[j].status == rounds[i].status,
        forall|k: int|
            0 <= k < rounds.len() && #[trigger] rounds[k].status == GameStatus::BetsSettled ==> k
                == rounds.len() - 1,
        rounds[0].status == GameStatus::AcceptingBets && rounds.last().status
            == GameStatus::BetsSettled ==> exists|i: int, j: int|
            0 < i < j < rounds.len() - 1 && rounds[i].status == GameStatus::WaitingForVRF
                && rounds[j].status == GameStatus::ResultReady,
{
    assert forall|i: int, j: int| 0 <= i <= j < rounds.len() implies status_rank(rounds[i].status)
        <= status_rank(rounds[j].status) by {
        lemma_ranks_grow(rounds, i, j);
    }
    assert forall|k: int| 0 <= k < rounds.len() - 1 implies status_rank(
        #[trigger] rounds[k + 1].status,
    ) <= status_rank(rounds[k].status) + 1 by {
        lemma_step_moves_forward(rounds[k], rounds[k + 1]);
    }
    assert forall|i: int, j: int, k: int|
        #![trigger rounds[i], rounds[j], rounds[k]]
        0 <= i <= j <= k < rounds.len() && rounds[i].status
            == rounds[k].status implies rounds[j].status == rounds[i].status by {
        lemma_ranks_grow(rounds, i, j);
        lemma_ranks_grow(rounds, j, k);
    }
    assert forall|k: int|
        0 <= k < rounds.len() && #[trigger] rounds[k].status == GameStatus::BetsSettled implies k
        == rounds.len() - 1 by {
        if k < rounds.len() - 1 {
            lemma_step_moves_forward(rounds[k], rounds[k + 1]);
        }
    }
    if rounds[0].status == GameStatus::AcceptingBets && rounds.last().status
        == GameStatus::BetsSettled {
        let n = rounds.len() as int;
        let i = lemma_rank_reached(rounds, n, 1);
        let j = lemma_rank_reached(rounds, n, 2);
        if j <= i {
            lemma_ranks_grow(rounds, j, i);
        }
        assert(rounds[i].status == GameStatus::WaitingForVRF);
        assert(rounds[j].status == GameStatus::ResultReady);
    }
}

} // verus!
