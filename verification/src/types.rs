use vstd::prelude::*;

verus! {

/// The colour of a pocket of the wheel.
#[derive(Clone, Copy, Debug, PartialEq, Eq, Structural)]
pub enum Color {
    Red,
    Black,
    Green,
}

/// Where a round stands.
#[derive(Clone, Copy, Debug, PartialEq, Eq, Structural)]
pub enum GameStatus {
    AcceptingBets,
    WaitingForVRF,
    ResultReady,
    BetsSettled,
    PayoutsProcessed,
    Error,
}

/// The kinds of bet of European roulette.
#[derive(Clone, Copy, Debug, PartialEq, Eq, Structural)]
pub enum BetType {
    /// Single number
    Straight,
    /// Two numbers
    Split,
    /// Three numbers in a row
    Street,
    /// Four numbers in a square
    Corner,
    /// Six numbers (two adjacent rows)
    Sixline,
    /// 1st, 2nd, or 3rd dozen
    Dozen,
    /// 1st, 2nd, or 3rd column
    Column,
    /// All red numbers
    Red,
    /// All black numbers
    Black,
    /// All odd numbers
    Odd,
    /// All even numbers
    Even,
    /// 1-18
    Low,
    /// 19-36
    High,
}

/// An account address: 32 bytes.
#[derive(Clone, Copy, Debug, PartialEq, Eq)]
pub struct Pubkey {
    pub bytes: [u8; 32],
}

impl View for Pubkey {
    type V = Seq<u8>;

    open spec fn view(&self) -> Seq<u8> {
        self.bytes@
    }
}

impl Pubkey {
    /// The address made of the given bytes.
    pub fn new_from_array(bytes: [u8; 32]) -> (k: Pubkey)
        ensures
            k.bytes == bytes,
            k@ == bytes@,
    {
        Pubkey { bytes }
    }

    /// The all-zero address.
    pub fn zeroed() -> (k: Pubkey)
        ensures
            k@ == Seq::new(32, |i: int| 0u8),
    {
        let k = Pubkey { bytes: [0u8; 32] };
        assert(k@ =~= Seq::new(32, |i: int| 0u8));
        k
    }

    /// Whether two addresses hold the same bytes.
    pub fn key_eq(&self, other: &Pubkey) -> (r: bool)
        ensures
            r == (self@ == other@),
    {
        let mut i: usize = 0;
        while i < 32
            invariant
                0 <= i <= 32,
                self@.len() == 32,
                other@.len() == 32,
                forall|j: int| 0 <= j < i ==> self@[j] == other@[j],
            decreases 32 - i,
        {
            if self.bytes[i] != other.bytes[i] {
                return false;
            }
            i = i + 1;
        }
        assert(self@ =~= other@);
        true
    }
}

} // verus!
