use vstd::prelude::*;

use switchboard_on_demand::RandomnessAccountData;

verus! {

/// What the game reads of a Switchboard randomness account: the slot its
/// randomness was seeded at, the slot it was revealed at, and the value.
#[derive(Clone, Copy, Debug, PartialEq, Eq)]
pub struct RandomnessReading {
    pub seed_slot: u64,
    pub reveal_slot: u64,
    pub value: [u8; 32],
}

/// The eight bytes that open the data of a randomness account.
pub open spec fn randomness_discriminator() -> Seq<u8> {
    seq![10u8, 66u8, 229u8, 135u8, 220u8, 239u8, 217u8, 114u8]
}

/// Whether account data is long enough for a randomness account, 8 bytes of
/// discriminator and 400 of fields, and opens with the discriminator.
pub open spec fn randomness_layout_ok(data: Seq<u8>) -> bool {
    data.len() >= 408 && data.take(8) == randomness_discriminator()
}

/// The little-endian `u64` held in `data[at..at + 8]`.
pub open spec fn le_u64_at(data: Seq<u8>, at: int) -> int {
    data[at] + 256 * (data[at + 1] + 256 * (data[at + 2] + 256 * (data[at + 3] + 256 * (data[at
        + 4] + 256 * (data[at + 5] + 256 * (data[at + 6] + 256 * data[at + 7]))))))
}

/// Calls `switchboard_on_demand::RandomnessAccountData::parse` on a copy of
/// the account data and reads the seed slot, the reveal slot and the value
/// of what it parsed.
///
/// The source of `parse` refuses data shorter than 408 bytes or not opening
/// with the discriminator; it then casts bytes 8..408 with `bytemuck`, which
/// also refuses a misaligned buffer, so on data of the right layout the
/// outcome is left open here. The fields are read in the machine's byte
/// order, little-endian on the SBF and x86-64 targets that this runs on; the
/// seed slot stands at offset 104, the reveal slot at 144, the value at 152.
#[verifier::external_body]
pub(crate) fn parse_randomness_account(data: &[u8]) -> (r: Option<RandomnessReading>)
    ensures
        !randomness_layout_ok(data@) ==> r is None,
        r matches Some(reading) ==> {
            &&& randomness_layout_ok(data@)
            &&& reading.seed_slot == le_u64_at(data@, 104)
            &&& reading.reveal_slot == le_u64_at(data@, 144)
            &&& reading.value@ == data@.subrange(152, 184)
        },
{
    let mut bytes = data.to_vec();
    let cell = std::cell::RefCell::new(&mut bytes[..]);
    let parsed = RandomnessAccountData::parse(cell.borrow());
    match parsed {
        Ok(account) => Some(
            RandomnessReading {
                seed_slot: account.seed_slot,
                reveal_slot: account.reveal_slot,
                value: account.value,
            },
        ),
        Err(_) => None,
    }
}

/// Whether `data` has the layout of a randomness account.
fn has_randomness_layout(data: &[u8]) -> (r: bool)
    ensures
        r == randomness_layout_ok(data@),
{
    if data.len() < 408 {
        return false;
    }
    let ok = data[0] == 10 && data[1] == 66 && data[2] == 229 && data[3] == 135 && data[4] == 220
        && data[5] == 239 && data[6] == 217 && data[7] == 114;
    assert(ok == (data@.take(8) =~= randomness_discriminator()));
    ok
}

/// The little-endian `u64` in `data[at..at + 8]`.
fn read_le_u64(data: &[u8], at: usize) -> (r: u64)
    requires
        at + 8 <= data@.len(),
    ensures
        r == le_u64_at(data@, at as int),
{
    let len = data.len();
    assert(at + 7 < len);
    let a7 = data[at + 7] as u64;
    let a6 = data[at + 6] as u64 + 256 * a7;
    let a5 = data[at + 5] as u64 + 256 * a6;
    let a4 = data[at + 4] as u64 + 256 * a5;
    let a3 = data[at + 3] as u64 + 256 * a4;
    let a2 = data[at + 2] as u64 + 256 * a3;
    let a1 = data[at + 1] as u64 + 256 * a2;
    data[at] as u64 + 256 * a1
}

/// The fields of a randomness account read straight from its bytes: the
/// seed slot at offset 104, the reveal slot at 144, the value at 152..184.
fn decode_randomness_account(data: &[u8]) -> (r: RandomnessReading)
    requires
        randomness_layout_ok(data@),
    ensures
        r.seed_slot == le_u64_at(data@, 104),
        r.reveal_slot == le_u64_at(data@, 144),
        r.value@ == data@.subrange(152, 184),
{
    let mut value = [0u8; 32];
    let mut i: usize = 0;
    while i < 32
        invariant
            0 <= i <= 32,
            data@.len() >= 408,
            value@.len() == 32,
            forall|j: int| 0 <= j < i ==> value@[j] == data@[152 + j],
        decreases 32 - i,
    {
        value.set(i, data[152 + i]);
        i = i + 1;
    }
    assert(value@ =~= data@.subrange(152, 184));
    RandomnessReading {
        seed_slot: read_le_u64(data, 104),
        reveal_slot: read_le_u64(data, 144),
        value,
    }
}

/// Reads a randomness account's data through Switchboard's parser: `None`
/// exactly where the data does not have the layout of a randomness account.
///
/// The parser also refuses a buffer that is not 8-aligned, which the copy
/// it is handed may be; the account data that the runtime hands a program,
/// which the parser reads in place, is 8-aligned. Where the parser refuses
/// data of the right layout, the fields are read from the bytes at the
/// offsets the parser reads them from.
pub(crate) fn read_randomness_account(data: &[u8]) -> (r: Option<RandomnessReading>)
    ensures
        r is None <==> !randomness_layout_ok(data@),
        r matches Some(reading) ==> {
            &&& reading.seed_slot == le_u64_at(data@, 104)
            &&& reading.reveal_slot == le_u64_at(data@, 144)
            &&& reading.value@ == data@.subrange(152, 184)
        },
{
    match parse_randomness_account(data) {
        Some(reading) => Some(reading),
        None => if has_randomness_layout(data) {
            Some(decode_randomness_account(data))
        } else {
            None
        },
    }
}

impl RandomnessReading {
    /// The random value, given only in the slot in which it was revealed.
    pub fn get_value(&self, clock_slot: u64) -> (r: Option<[u8; 32]>)
        ensures
            r == (if clock_slot == self.reveal_slot {
                Some(self.value)
            } else {
                None
            }),
    {
        if clock_slot != self.reveal_slot {
            return None;
        }
        Some(self.value)
    }
}

} // verus!
