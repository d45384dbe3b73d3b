use vstd::prelude::*;

use crate::error::{ErrorCodes, RugletteError};
use crate::lifecycle::round_step;
use crate::randomness::{le_u64_at, randomness_layout_ok, read_randomness_account};
use crate::state::RoundState;
use crate::types::{GameStatus, Pubkey};

verus! {

/// Whether the player can spin the wheel of `round`, and if not, why.
pub open spec fn wheel_spin_outcome(round: RoundState, player: Seq<u8>) -> Result<(), RugletteError> {
    if round.player@ != player {
        Err(RugletteError::Code(ErrorCodes::InvalidPlayer))
    } else if round.status != GameStatus::AcceptingBets {
        Err(RugletteError::Code(ErrorCodes::RoundNotAcceptingBets))
    } else {
        Ok(())
    }
}

/// Spins the wheel: the round stops taking bets and commits to the given
/// randomness account, seeded at `commit_slot`; it then waits for that
/// account to reveal its value. On an error the round is left as it was.
pub fn wheel_spin(
    round: &mut RoundState,
    player: &Pubkey,
    randomness_account: Pubkey,
    commit_slot: u64,
) -> (r: Result<(), RugletteError>)
    ensures
        r == wheel_spin_outcome(*old(round), player@),
        r is Ok ==> *final(round) == (RoundState {
            vrf_account: randomness_account,
            commit_slot,
            status: GameStatus::WaitingForVRF,
            ..*old(round)
        }),
        r is Err ==> *final(round) == *old(round),
        old(round).wf() ==> final(round).wf(),
        r is Ok ==> round_step(*old(round), *final(round)),
{
    if !round.player.key_eq(player) {
        return Err(RugletteError::Code(ErrorCodes::InvalidPlayer));
    }
    if round.status != GameStatus::AcceptingBets {
        return Err(RugletteError::Code(ErrorCodes::RoundNotAcceptingBets));
    }
    round.vrf_account = randomness_account;
    round.commit_slot = commit_slot;
    round.status = GameStatus::WaitingForVRF;
    Ok(())
}

/// Why the player cannot commit the round to the account `account_key`
/// when asking for `randomness_account`: a refusal of [`wheel_spin`], or the
/// account whose data is given is not the one asked for.
pub open spec fn commit_precheck(
    round: RoundState,
    player: Seq<u8>,
    randomness_account: Seq<u8>,
    account_key: Seq<u8>,
) -> Option<RugletteError> {
    match wheel_spin_outcome(round, player) {
        Err(e) => Some(e),
        Ok(()) => if account_key != randomness_account {
            Some(RugletteError::Code(ErrorCodes::InvalidRandomnessAccount))
        } else {
            None
        },
    }
}

/// Spins the wheel against a Switchboard randomness account: reads the
/// account's data (`account_key` is the address it was read from), and
/// commits the round to `randomness_account` at the slot the account's
/// randomness was seeded at, so that revealing later accepts exactly that
/// account and seed. `None` where the checks pass but the data does not
/// have the layout of a randomness account; the round is then left as it was.
pub fn commit_randomness(
    round: &mut RoundState,
    player: &Pubkey,
    randomness_account: &Pubkey,
    account_key: &Pubkey,
    randomness_data: &[u8],
) -> (r: Option<Result<(), RugletteError>>)
    ensures
        match commit_precheck(*old(round), player@, randomness_account@, account_key@) {
            Some(e) => r == Some(Err::<(), RugletteError>(e)) && *final(round) == *old(round),
            None => {
                &&& r is None <==> !randomness_layout_ok(randomness_data@)
                &&& r is None ==> *final(round) == *old(round)
                &&& r matches Some(res) ==> {
                    &&& randomness_layout_ok(randomness_data@)
                    &&& res is Ok
                    &&& *final(round) == (RoundState {
                        vrf_account: *randomness_account,
                        commit_slot: le_u64_at(randomness_data@, 104) as u64,
                        status: GameStatus::WaitingForVRF,
                        ..*old(round)
                    })
                }
            },
        },
        old(round).wf() ==> final(round).wf(),
        r == Some(Ok::<(), RugletteError>(())) ==> round_step(*old(round), *final(round)),
{
    if !round.player.key_eq(player) {
        return Some(Err(RugletteError::Code(ErrorCodes::InvalidPlayer)));
    }
    if round.status != GameStatus::AcceptingBets {
        return Some(Err(RugletteError::Code(ErrorCodes::RoundNotAcceptingBets)));
    }
    if !account_key.key_eq(randomness_account) {
        return Some(Err(RugletteError::Code(ErrorCodes::InvalidRandomnessAccount)));
    }
    match read_randomness_account(randomness_data) {
        Some(reading) => Some(wheel_spin(round, player, *randomness_account, reading.seed_slot)),
        None => None,
    }
}

} // verus!
