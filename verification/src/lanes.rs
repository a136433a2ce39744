//! The mathematical model shared by every storage layout: four booleans, and
//! the canonical array of four 32-bit words that stands for them.

use vstd::prelude::*;

verus! {

/// Storage word of a true lane: every bit set.
pub const LANE_TRUE: u32 = 0xFFFF_FFFF;

/// Storage word of a false lane: no bit set.
pub const LANE_FALSE: u32 = 0;

/// The word that stores the truth value `b`.
pub open spec fn lane_word(b: bool) -> u32 {
    if b {
        LANE_TRUE
    } else {
        LANE_FALSE
    }
}

/// A word is a valid lane when it is one of the two canonical patterns.
pub open spec fn is_lane_word(word: u32) -> bool {
    word == LANE_FALSE || word == LANE_TRUE
}

/// The truth value that a stored word stands for: any nonzero word reads as
/// true.
pub open spec fn word_truth(word: u32) -> bool {
    word != 0
}

/// Four truth values, lane 0 first.
pub struct Lanes {
    pub x: bool,
    pub y: bool,
    pub z: bool,
    pub w: bool,
}

impl Lanes {
    /// Lane-wise conjunction.
    pub open spec fn and(self, other: Lanes) -> Lanes {
        Lanes {
            x: self.x && other.x,
            y: self.y && other.y,
            z: self.z && other.z,
            w: self.w && other.w,
        }
    }

    /// Lane-wise disjunction.
    pub open spec fn or(self, other: Lanes) -> Lanes {
        Lanes {
            x: self.x || other.x,
            y: self.y || other.y,
            z: self.z || other.z,
            w: self.w || other.w,
        }
    }

    /// Lane-wise negation.
    pub open spec fn not(self) -> Lanes {
        Lanes { x: !self.x, y: !self.y, z: !self.z, w: !self.w }
    }

    /// At least one lane is true.
    pub open spec fn any(self) -> bool {
        self.x || self.y || self.z || self.w
    }

    /// Every lane is true.
    pub open spec fn all(self) -> bool {
        self.x && self.y && self.z && self.w
    }

    /// The four-bit summary: bit `i` is set exactly when lane `i` is true.
    pub open spec fn bitmask(self) -> int {
        (if self.x { 1int } else { 0 }) + (if self.y { 2int } else { 0 })
            + (if self.z { 4int } else { 0 }) + (if self.w { 8int } else { 0 })
    }

    /// The canonical array: one word per lane, lane 0 first.
    pub open spec fn words(self) -> Seq<u32> {
        seq![lane_word(self.x), lane_word(self.y), lane_word(self.z), lane_word(self.w)]
    }

    /// The truth values that an array of four stored words stands for.
    pub open spec fn of_words(words: Seq<u32>) -> Lanes
        recommends
            words.len() == 4,
    {
        Lanes {
            x: word_truth(words[0]),
            y: word_truth(words[1]),
            z: word_truth(words[2]),
            w: word_truth(words[3]),
        }
    }
}

/// `&` on two lane words is the conjunction of their truth values.
pub proof fn lemma_word_and(a: u32, b: u32)
    requires
        is_lane_word(a),
        is_lane_word(b),
    ensures
        a & b == lane_word(word_truth(a) && word_truth(b)),
{
    assert(0u32 & 0u32 == 0u32) by (bit_vector);
    assert(0u32 & 0xFFFF_FFFFu32 == 0u32) by (bit_vector);
    assert(0xFFFF_FFFFu32 & 0u32 == 0u32) by (bit_vector);
    assert(0xFFFF_FFFFu32 & 0xFFFF_FFFFu32 == 0xFFFF_FFFFu32) by (bit_vector);
}

/// `|` on two lane words is the disjunction of their truth values.
pub proof fn lemma_word_or(a: u32, b: u32)
    requires
        is_lane_word(a),
        is_lane_word(b),
    ensures
        a | b == lane_word(word_truth(a) || word_truth(b)),
{
    assert(0u32 | 0u32 == 0u32) by (bit_vector);
    assert(0u32 | 0xFFFF_FFFFu32 == 0xFFFF_FFFFu32) by (bit_vector);
    assert(0xFFFF_FFFFu32 | 0u32 == 0xFFFF_FFFFu32) by (bit_vector);
    assert(0xFFFF_FFFFu32 | 0xFFFF_FFFFu32 == 0xFFFF_FFFFu32) by (bit_vector);
}

/// `!` on a lane word is the negation of its truth value.
pub proof fn lemma_word_not(a: u32)
    requires
        is_lane_word(a),
    ensures
        !a == lane_word(!word_truth(a)),
{
    assert(!0u32 == 0xFFFF_FFFFu32) by (bit_vector);
    assert(!0xFFFF_FFFFu32 == 0u32) by (bit_vector);
}

} // verus!
