use vstd::prelude::*;

use crate::error::{ErrorCodes, RugletteError};
use crate::lifecycle::round_step;
use crate::randomness::{le_u64_at, randomness_layout_ok, read_randomness_account, RandomnessReading};
use crate::state::RoundState;
use crate::types::{GameStatus, Pubkey};

verus! {

/// Why a round cannot take randomness from `randomness_account` at all: the
/// signer is not the round's player, the round is not waiting for a random
/// number, or the account is not the one the round committed to.
pub open spec fn randomness_precheck(round: RoundState, player: Seq<u8>, randomness_account: Seq<u8>) -> Option<RugletteError> {
    if round.player@ != player {
        Some(RugletteError::Code(ErrorCodes::InvalidPlayer))
    } else if round.status != GameStatus::WaitingForVRF {
        Some(RugletteError::Code(ErrorCodes::NotWaitingForRandomNumber))
    } else if randomness_account != round.vrf_account@ {
        Some(RugletteError::Code(ErrorCodes::InvalidRandomnessAccount))
    } else {
        None
    }
}

/// Whether a round takes the randomness read from its account in slot
/// `clock_slot`, and if not, why: the randomness must be seeded at the slot
/// the round committed to and revealed in the current slot.
pub open spec fn randomness_outcome(
    round: RoundState,
    player: Seq<u8>,
    randomness_account: Seq<u8>,
    seed_slot: u64,
    reveal_slot: u64,
    clock_slot: u64,
) -> Result<(), RugletteError> {
    match randomness_precheck(round, player, randomness_account) {
        Some(e) => Err(e),
        None => if seed_slot != round.commit_slot {
            Err(RugletteError::Code(ErrorCodes::RandomnessExpired))
        } else if clock_slot != reveal_slot {
            Err(RugletteError::Code(ErrorCodes::RandomnessNotResolved))
        } else {
            Ok(())
        },
    }
}

/// `new` is `old` with the random `value` recorded: the value is the result
/// buffer, its first byte modulo 37 the winning number, and the result is ready.
pub open spec fn result_recorded(old: RoundState, new: RoundState, value: Seq<u8>) -> bool {
    &&& new.result_buffer@ == value
    &&& new.winning_number == Some((value[0] % 37) as u8)
    &&& new.status == GameStatus::ResultReady
    &&& new.player == old.player
    &&& new.start_time == old.start_time
    &&& new.commit_slot == old.commit_slot
    &&& new.total_wagered == old.total_wagered
    &&& new.payout_amount == old.payout_amount
    &&& new.vrf_account == old.vrf_account
    &&& new.bump == old.bump
}

/// Takes the randomness read from the round's randomness account: checks the
/// signer, the round's status, the account, the seed slot and the reveal slot,
/// then records the value and the winning number it gives. On an error the
/// round is left as it was.
pub fn apply_randomness(
    round: &mut RoundState,
    player: &Pubkey,
    randomness_account: &Pubkey,
    reading: &RandomnessReading,
    clock_slot: u64,
) -> (r: Result<(), RugletteError>)
    ensures
        r == randomness_outcome(
            *old(round),
            player@,
            randomness_account@,
            reading.seed_slot,
            reading.reveal_slot,
            clock_slot,
        ),
        r is Ok ==> result_recorded(*old(round), *final(round), reading.value@),
        r is Err ==> *final(round) == *old(round),
        old(round).wf() ==> final(round).wf(),
        r is Ok ==> round_step(*old(round), *final(round)),
{
    if !round.player.key_eq(player) {
        return Err(RugletteError::Code(ErrorCodes::InvalidPlayer));
    }
    if round.status != GameStatus::WaitingForVRF {
        return Err(RugletteError::Code(ErrorCodes::NotWaitingForRandomNumber));
    }
    if !randomness_account.key_eq(&round.vrf_account) {
        return Err(RugletteError::Code(ErrorCodes::InvalidRandomnessAccount));
    }
    if reading.seed_slot != round.commit_slot {
        return Err(RugletteError::Code(ErrorCodes::RandomnessExpired));
    }
    let revealed_random_value = match reading.get_value(clock_slot) {
        Some(value) => value,
        None => return Err(RugletteError::Code(ErrorCodes::RandomnessNotResolved)),
    };
    let randomness_result = revealed_random_value[0] % 37;
    round.result_buffer = revealed_random_value;
    round.winning_number = Some(randomness_result);
    round.status = GameStatus::ResultReady;
    Ok(())
}

/// Reveals the round's result from the data of its randomness account, read
/// in slot `clock_slot`. `None` where the checks of the signer, the round and
/// the account pass but the data does not have the layout of a randomness account;
/// the round is then left as it was. Otherwise the outcome of
/// [`apply_randomness`] on what the data holds.
pub fn verify_randomness(
    round: &mut RoundState,
    player: &Pubkey,
    randomness_account: &Pubkey,
    randomness_data: &[u8],
    clock_slot: u64,
) -> (r: Option<Result<(), RugletteError>>)
    ensures
        match randomness_precheck(*old(round), player@, randomness_account@) {
            Some(e) => r == Some(Err::<(), RugletteError>(e)) && *final(round) == *old(round),
            None => {
                &&& r is None <==> !randomness_layout_ok(randomness_data@)
                &&& r is None ==> *final(round) == *old(round)
                &&& r matches Some(res) ==> {
                    &&& randomness_layout_ok(randomness_data@)
                    &&& res == randomness_outcome(
                        *old(round),
                        player@,
                        randomness_account@,
                        le_u64_at(randomness_data@, 104) as u64,
                        le_u64_at(randomness_data@, 144) as u64,
                        clock_slot,
                    )
                    &&& res is Ok ==> result_recorded(
                        *old(round),
                        *final(round),
                        randomness_data@.subrange(152, 184),
                    )
                    &&& res is Err ==> *final(round) == *old(round)
                }
            },
        },
        old(round).wf() ==> final(round).wf(),
        r == Some(Ok::<(), RugletteError>(())) ==> round_step(*old(round), *final(round)),
{
    if !round.player.key_eq(player) {
        return Some(Err(RugletteError::Code(ErrorCodes::InvalidPlayer)));
    }
    if round.status != GameStatus::WaitingForVRF {
        return Some(Err(RugletteError::Code(ErrorCodes::NotWaitingForRandomNumber)));
    }
    if !randomness_account.key_eq(&round.vrf_account) {
        return Some(Err(RugletteError::Code(ErrorCodes::InvalidRandomnessAccount)));
    }
    match read_randomness_account(randomness_data) {
        Some(reading) => Some(apply_randomness(round, player, randomness_account, &reading, clock_slot)),
        None => None,
    }
}

} // verus!
