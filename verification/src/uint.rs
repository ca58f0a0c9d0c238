use vstd::prelude::*;

verus! {

/// An unsigned 256-bit integer, stored as four 64-bit words, least
/// significant word first. Chain identifiers and native-currency
/// amounts are values of this type; any value is accepted and carried
/// verbatim, with no registry of known networks.
#[derive(Clone, Copy, PartialEq, Eq, Structural, Debug)]
pub struct Uint256 {
    pub w0: u64,
    pub w1: u64,
    pub w2: u64,
    pub w3: u64,
}

impl Uint256 {
    /// The mathematical value of the four words.
    pub open spec fn as_nat(self) -> nat {
        (self.w0 as nat) + (self.w1 as nat) * 0x10000000000000000
            + (self.w2 as nat) * 0x100000000000000000000000000000000
            + (self.w3 as nat) * 0x1000000000000000000000000000000000000000000000000
    }

    /// The zero value.
    pub fn zero() -> (r: Uint256)
        ensures
            r.as_nat() == 0,
            r == (Uint256 { w0: 0, w1: 0, w2: 0, w3: 0 }),
    {
        Uint256 { w0: 0, w1: 0, w2: 0, w3: 0 }
    }

    /// Embeds a 64-bit value.
    pub fn from_u64(x: u64) -> (r: Uint256)
        ensures
            r.as_nat() == x,
            r == (Uint256 { w0: x, w1: 0, w2: 0, w3: 0 }),
    {
        Uint256 { w0: x, w1: 0, w2: 0, w3: 0 }
    }

    /// Assembles a value from its four words, least significant first.
    pub fn from_words(w0: u64, w1: u64, w2: u64, w3: u64) -> (r: Uint256)
        ensures
            r == (Uint256 { w0, w1, w2, w3 }),
    {
        Uint256 { w0, w1, w2, w3 }
    }

    /// A value is zero exactly when every word is zero.
    pub fn is_zero(&self) -> (r: bool)
        ensures
            r == (self.as_nat() == 0),
    {
        self.w0 == 0 && self.w1 == 0 && self.w2 == 0 && self.w3 == 0
    }

    /// Word-by-word comparison, most significant first, agreeing with
    /// the order of the mathematical values.
    pub fn le(&self, other: &Uint256) -> (r: bool)
        ensures
            r == (self.as_nat() <= other.as_nat()),
    {
        proof {
            lemma_word_order(*self, *other);
        }
        if self.w3 != other.w3 {
            self.w3 < other.w3
        } else if self.w2 != other.w2 {
            self.w2 < other.w2
        } else if self.w1 != other.w1 {
            self.w1 < other.w1
        } else {
            self.w0 <= other.w0
        }
    }
}

/// A value is bounded by its words: if the most significant words agree
/// and a lower word is strictly smaller, the whole value is strictly
/// smaller, because the remaining words contribute less than one unit
/// of the next word's weight.
proof fn lemma_word_order(a: Uint256, b: Uint256)
    ensures
        a.w3 < b.w3 ==> a.as_nat() < b.as_nat(),
        a.w3 == b.w3 && a.w2 < b.w2 ==> a.as_nat() < b.as_nat(),
        a.w3 == b.w3 && a.w2 == b.w2 && a.w1 < b.w1 ==> a.as_nat() < b.as_nat(),
        a.w3 == b.w3 && a.w2 == b.w2 && a.w1 == b.w1 ==> (a.as_nat() <= b.as_nat()
            <==> a.w0 <= b.w0),
{
    assert(a.w0 < 0x10000000000000000);
    assert(a.w1 < 0x10000000000000000);
    assert(a.w2 < 0x10000000000000000);
    assert(b.w0 < 0x10000000000000000);
    assert(b.w1 < 0x10000000000000000);
    assert(b.w2 < 0x10000000000000000);
}

} // verus!
