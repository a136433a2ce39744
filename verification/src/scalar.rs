//! The scalar storage layout: four separate 32-bit words, every operation
//! written word by word.

use crate::lanes::{
    is_lane_word, lane_word, lemma_word_and, lemma_word_not, lemma_word_or, word_truth, Lanes, LANE_FALSE,
    LANE_TRUE,
};
use vstd::prelude::*;

verus! {

/// Four lanes held as four separate words.
#[derive(Clone, Copy, Debug, PartialEq, Eq, Structural, PartialOrd, Ord, Hash)]
pub struct ScalarLanes {
    x: u32,
    y: u32,
    z: u32,
    w: u32,
}

impl ScalarLanes {
    /// Every stored word is one of the two canonical patterns.
    #[verifier::type_invariant]
    pub closed spec fn wf(self) -> bool {
        &&& is_lane_word(self.x)
        &&& is_lane_word(self.y)
        &&& is_lane_word(self.z)
        &&& is_lane_word(self.w)
    }

    /// The stored words, lane 0 first.
    pub closed spec fn words(self) -> Seq<u32> {
        seq![self.x, self.y, self.z, self.w]
    }

    /// The truth values that the stored words stand for.
    pub open spec fn lanes(self) -> Lanes {
        Lanes::of_words(self.words())
    }

    /// The well-formed layout that stands for `lanes`.
    pub closed spec fn of_lanes(lanes: Lanes) -> Self {
        ScalarLanes {
            x: lane_word(lanes.x),
            y: lane_word(lanes.y),
            z: lane_word(lanes.z),
            w: lane_word(lanes.w),
        }
    }

    /// `of_lanes` is well formed and stands for the lanes it was given.
    pub proof fn lemma_of_lanes(lanes: Lanes)
        ensures
            Self::of_lanes(lanes).wf(),
            Self::of_lanes(lanes).lanes() == lanes,
            Self::of_lanes(lanes).words() == lanes.words(),
    {
        assert(Self::of_lanes(lanes).words() =~= lanes.words());
    }

    /// A well-formed layout is determined by its lanes.
    pub proof fn lemma_lanes_determine(self)
        requires
            self.wf(),
        ensures
            self == Self::of_lanes(self.lanes()),
            self.words() == self.lanes().words(),
    {
        assert(self.words() =~= self.lanes().words());
    }

    /// Builds the layout whose lanes are `x`, `y`, `z`, `w`.
    pub fn new(x: bool, y: bool, z: bool, w: bool) -> (r: Self)
        ensures
            r.wf(),
            r.lanes() == (Lanes { x, y, z, w }),
            r.words() == (Lanes { x, y, z, w }).words(),
    {
        let r = ScalarLanes {
            x: if x { LANE_TRUE } else { LANE_FALSE },
            y: if y { LANE_TRUE } else { LANE_FALSE },
            z: if z { LANE_TRUE } else { LANE_FALSE },
            w: if w { LANE_TRUE } else { LANE_FALSE },
        };
        assert(r.words() =~= (Lanes { x, y, z, w }).words());
        r
    }

    /// The layout with every lane false.
    pub fn false_identity() -> (r: Self)
        ensures
            r.wf(),
            r.lanes() == (Lanes { x: false, y: false, z: false, w: false }),
    {
        ScalarLanes { x: LANE_FALSE, y: LANE_FALSE, z: LANE_FALSE, w: LANE_FALSE }
    }

    /// Lane-wise conjunction, one `&` per word.
    pub fn bitand(self, other: Self) -> (r: Self)
        ensures
            r.wf(),
            r.lanes() == self.lanes().and(other.lanes()),
    {
        proof {
            use_type_invariant(&self);
            use_type_invariant(&other);
            lemma_word_and(self.x, other.x);
            lemma_word_and(self.y, other.y);
            lemma_word_and(self.z, other.z);
            lemma_word_and(self.w, other.w);
        }
        ScalarLanes {
            x: self.x & other.x,
            y: self.y & other.y,
            z: self.z & other.z,
            w: self.w & other.w,
        }
    }

    /// Lane-wise disjunction, one `|` per word.
    pub fn bitor(self, other: Self) -> (r: Self)
        ensures
            r.wf(),
            r.lanes() == self.lanes().or(other.lanes()),
    {
        proof {
            use_type_invariant(&self);
            use_type_invariant(&other);
            lemma_word_or(self.x, other.x);
            lemma_word_or(self.y, other.y);
            lemma_word_or(self.z, other.z);
            lemma_word_or(self.w, other.w);
        }
        ScalarLanes {
            x: self.x | other.x,
            y: self.y | other.y,
            z: self.z | other.z,
            w: self.w | other.w,
        }
    }

    /// Lane-wise negation, one `!` per word.
    pub fn not(self) -> (r: Self)
        ensures
            r.wf(),
            r.lanes() == self.lanes().not(),
    {
        proof {
            use_type_invariant(&self);
            lemma_word_not(self.x);
            lemma_word_not(self.y);
            lemma_word_not(self.z);
            lemma_word_not(self.w);
        }
        ScalarLanes { x: !self.x, y: !self.y, z: !self.z, w: !self.w }
    }

    /// The four-bit summary, lane 0 in the least significant bit.
    pub fn bitmask(self) -> (r: u32)
        ensures
            r == self.lanes().bitmask(),
    {
        proof {
            use_type_invariant(&self);
            lemma_pack_bits(self.x, self.y, self.z, self.w);
        }
        (self.x & 0x1) | (self.y & 0x1) << 1 | (self.z & 0x1) << 2 | (self.w & 0x1) << 3
    }

    /// Whether at least one lane is true.
    pub fn any(self) -> (r: bool)
        ensures
            r == self.lanes().any(),
    {
        proof {
            use_type_invariant(&self);
            lemma_reduce_or(self.x, self.y, self.z, self.w);
        }
        ((self.x | self.y | self.z | self.w) & 0x1) != 0
    }

    /// Whether every lane is true.
    pub fn all(self) -> (r: bool)
        ensures
            r == self.lanes().all(),
    {
        proof {
            use_type_invariant(&self);
            lemma_reduce_and(self.x, self.y, self.z, self.w);
        }
        ((self.x & self.y & self.z & self.w) & 0x1) != 0
    }

    /// The stored words as an array, lane 0 first.
    pub fn to_array(self) -> (r: [u32; 4])
        ensures
            r@ == self.words(),
            r@ == self.lanes().words(),
    {
        proof {
            use_type_invariant(&self);
        }
        let r = [self.x, self.y, self.z, self.w];
        assert(r@ =~= self.words());
        assert(self.words() =~= self.lanes().words());
        r
    }
}

/// Packing the low bit of four lane words gives the four-bit summary.
proof fn lemma_pack_bits(x: u32, y: u32, z: u32, w: u32)
    requires
        is_lane_word(x),
        is_lane_word(y),
        is_lane_word(z),
        is_lane_word(w),
    ensures
        ((x & 0x1) | (y & 0x1) << 1 | (z & 0x1) << 2 | (w & 0x1) << 3) == (Lanes {
            x: word_truth(x),
            y: word_truth(y),
            z: word_truth(z),
            w: word_truth(w),
        }).bitmask(),
{
    let packed = (x & 0x1) | (y & 0x1) << 1 | (z & 0x1) << 2 | (w & 0x1) << 3;
    assert(packed == (if x != 0 { 1u32 } else { 0 }) + (if y != 0 { 2u32 } else { 0 }) + (if z != 0 {
        4u32
    } else {
        0
    }) + (if w != 0 { 8u32 } else { 0 })) by (bit_vector)
        requires
            x == 0 || x == 0xFFFF_FFFFu32,
            y == 0 || y == 0xFFFF_FFFFu32,
            z == 0 || z == 0xFFFF_FFFFu32,
            w == 0 || w == 0xFFFF_FFFFu32,
            packed == (x & 0x1) | (y & 0x1) << 1 | (z & 0x1) << 2 | (w & 0x1) << 3,
    ;
}

/// The low bit of the `|` of four lane words is set exactly when one of them
/// is true.
proof fn lemma_reduce_or(x: u32, y: u32, z: u32, w: u32)
    requires
        is_lane_word(x),
        is_lane_word(y),
        is_lane_word(z),
        is_lane_word(w),
    ensures
        (((x | y | z | w) & 0x1) != 0) == (x != 0 || y != 0 || z != 0 || w != 0),
{
    assert((((x | y | z | w) & 0x1) != 0) == (x != 0 || y != 0 || z != 0 || w != 0))
        by (bit_vector)
        requires
            x == 0 || x == 0xFFFF_FFFFu32,
            y == 0 || y == 0xFFFF_FFFFu32,
            z == 0 || z == 0xFFFF_FFFFu32,
            w == 0 || w == 0xFFFF_FFFFu32,
    ;
}

/// The low bit of the `&` of four lane words is set exactly when all of them
/// are true.
proof fn lemma_reduce_and(x: u32, y: u32, z: u32, w: u32)
    requires
        is_lane_word(x),
        is_lane_word(y),
        is_lane_word(z),
        is_lane_word(w),
    ensures
        (((x & y & z & w) & 0x1) != 0) == (x != 0 && y != 0 && z != 0 && w != 0),
{
    assert((((x & y & z & w) & 0x1) != 0) == (x != 0 && y != 0 && z != 0 && w != 0))
        by (bit_vector)
        requires
            x == 0 || x == 0xFFFF_FFFFu32,
            y == 0 || y == 0xFFFF_FFFFu32,
            z == 0 || z == 0xFFFF_FFFFu32,
            w == 0 || w == 0xFFFF_FFFFu32,
    ;
}

} // verus!
