//! The vector storage layout: one 128-bit register that holds the four lanes
//! side by side, lane 0 in the lowest 32 bits. Every operation acts on the
//! whole register at once.

use crate::lanes::{is_lane_word, lane_word, lemma_word_and, lemma_word_not, lemma_word_or, Lanes};
use vstd::prelude::*;

verus! {

/// The 32-bit lane at `index` (0..4) of a 128-bit register.
pub open spec fn register_lane(reg: u128, index: u128) -> u32 {
    ((reg >> (32 * index)) & 0xFFFF_FFFF) as u32
}

/// The register that holds the four given words, lane 0 lowest.
pub open spec fn register_of(x: u32, y: u32, z: u32, w: u32) -> u128 {
    (x as u128) | (y as u128) << 32 | (z as u128) << 64 | (w as u128) << 96
}

/// The sign bit of every lane of a register, packed into four bits with lane
/// 0 in the least significant one.
pub open spec fn register_signs(reg: u128) -> u128 {
    ((reg >> 31) & 0x1) | ((reg >> 63) & 0x1) << 1 | ((reg >> 95) & 0x1) << 2 | ((reg >> 127)
        & 0x1) << 3
}

/// Four lanes held in one 128-bit register.
#[derive(Clone, Copy, Debug, PartialEq, Eq, Structural, Hash)]
pub struct VectorLanes {
    reg: u128,
}

impl VectorLanes {
    /// Every lane of the register is one of the two canonical patterns.
    #[verifier::type_invariant]
    pub closed spec fn wf(self) -> bool {
        &&& is_lane_word(register_lane(self.reg, 0))
        &&& is_lane_word(register_lane(self.reg, 1))
        &&& is_lane_word(register_lane(self.reg, 2))
        &&& is_lane_word(register_lane(self.reg, 3))
    }

    /// The four lanes of the register as words, lane 0 first.
    pub closed spec fn words(self) -> Seq<u32> {
        seq![
            register_lane(self.reg, 0),
            register_lane(self.reg, 1),
            register_lane(self.reg, 2),
            register_lane(self.reg, 3),
        ]
    }

    /// The truth values that the lanes of the register stand for.
    pub open spec fn lanes(self) -> Lanes {
        Lanes::of_words(self.words())
    }

    /// The well-formed register that stands for `lanes`.
    pub closed spec fn of_lanes(lanes: Lanes) -> Self {
        VectorLanes {
            reg: register_of(
                lane_word(lanes.x),
                lane_word(lanes.y),
                lane_word(lanes.z),
                lane_word(lanes.w),
            ),
        }
    }

    /// `of_lanes` is well formed and stands for the lanes it was given.
    pub proof fn lemma_of_lanes(lanes: Lanes)
        ensures
            Self::of_lanes(lanes).wf(),
            Self::of_lanes(lanes).lanes() == lanes,
            Self::of_lanes(lanes).words() == lanes.words(),
    {
        lemma_register_pack(
            lane_word(lanes.x) as u128,
            lane_word(lanes.y) as u128,
            lane_word(lanes.z) as u128,
            lane_word(lanes.w) as u128,
        );
        assert(Self::of_lanes(lanes).words() =~= lanes.words());
    }

    /// A well-formed register presents the canonical array of its lanes.
    pub proof fn lemma_words_canonical(self)
        requires
            self.wf(),
        ensures
            self.words() == self.lanes().words(),
    {
        assert(self.words() =~= self.lanes().words());
    }

    /// Builds the register whose lanes are `x`, `y`, `z`, `w`.
    pub fn new(x: bool, y: bool, z: bool, w: bool) -> (r: Self)
        ensures
            r.wf(),
            r.lanes() == (Lanes { x, y, z, w }),
            r.words() == (Lanes { x, y, z, w }).words(),
    {
        let lx: u128 = if x { 0xFFFF_FFFF } else { 0 };
        let ly: u128 = if y { 0xFFFF_FFFF } else { 0 };
        let lz: u128 = if z { 0xFFFF_FFFF } else { 0 };
        let lw: u128 = if w { 0xFFFF_FFFF } else { 0 };
        let reg: u128 = lx | ly << 32 | lz << 64 | lw << 96;
        proof {
            lemma_register_pack(lx, ly, lz, lw);
        }
        let r = VectorLanes { reg };
        assert(r.words() =~= (Lanes { x, y, z, w }).words());
        r
    }

    /// The register with every lane false.
    pub fn false_identity() -> (r: Self)
        ensures
            r.wf(),
            r.lanes() == (Lanes { x: false, y: false, z: false, w: false }),
    {
        proof {
            lemma_register_pack(0, 0, 0, 0);
            assert(0u128 | 0u128 << 32 | 0u128 << 64 | 0u128 << 96 == 0u128) by (bit_vector);
        }
        VectorLanes { reg: 0 }
    }

    /// Lane-wise conjunction: one `&` on the whole register.
    pub fn bitand(self, other: Self) -> (r: Self)
        ensures
            r.wf(),
            r.lanes() == self.lanes().and(other.lanes()),
    {
        proof {
            use_type_invariant(&self);
            use_type_invariant(&other);
            lemma_register_and(self.reg, other.reg);
            lemma_word_and(register_lane(self.reg, 0), register_lane(other.reg, 0));
            lemma_word_and(register_lane(self.reg, 1), register_lane(other.reg, 1));
            lemma_word_and(register_lane(self.reg, 2), register_lane(other.reg, 2));
            lemma_word_and(register_lane(self.reg, 3), register_lane(other.reg, 3));
        }
        VectorLanes { reg: self.reg & other.reg }
    }

    /// Lane-wise disjunction: one `|` on the whole register.
    pub fn bitor(self, other: Self) -> (r: Self)
        ensures
            r.wf(),
            r.lanes() == self.lanes().or(other.lanes()),
    {
        proof {
            use_type_invariant(&self);
            use_type_invariant(&other);
            lemma_register_or(self.reg, other.reg);
            lemma_word_or(register_lane(self.reg, 0), register_lane(other.reg, 0));
            lemma_word_or(register_lane(self.reg, 1), register_lane(other.reg, 1));
            lemma_word_or(register_lane(self.reg, 2), register_lane(other.reg, 2));
            lemma_word_or(register_lane(self.reg, 3), register_lane(other.reg, 3));
        }
        VectorLanes { reg: self.reg | other.reg }
    }

    /// Lane-wise negation: one `!` on the whole register.
    pub fn not(self) -> (r: Self)
        ensures
            r.wf(),
            r.lanes() == self.lanes().not(),
    {
        proof {
            use_type_invariant(&self);
            lemma_register_not(self.reg);
            lemma_word_not(register_lane(self.reg, 0));
            lemma_word_not(register_lane(self.reg, 1));
            lemma_word_not(register_lane(self.reg, 2));
            lemma_word_not(register_lane(self.reg, 3));
        }
        VectorLanes { reg: !self.reg }
    }

    /// Gathers the sign bit of every lane into the low four bits.
    fn sign_bits(self) -> (r: u32)
        ensures
            r == self.lanes().bitmask(),
    {
        proof {
            use_type_invariant(&self);
            lemma_register_signs(self.reg);
        }
        let reg = self.reg;
        let signs: u128 = ((reg >> 31) & 0x1) | ((reg >> 63) & 0x1) << 1 | ((reg >> 95) & 0x1) << 2
            | ((reg >> 127) & 0x1) << 3;
        signs as u32
    }

    /// The four-bit summary, lane 0 in the least significant bit.
    pub fn bitmask(self) -> (r: u32)
        ensures
            r == self.lanes().bitmask(),
    {
        self.sign_bits()
    }

    /// Whether at least one lane is true.
    pub fn any(self) -> (r: bool)
        ensures
            r == self.lanes().any(),
    {
        self.sign_bits() != 0
    }

    /// Whether every lane is true.
    pub fn all(self) -> (r: bool)
        ensures
            r == self.lanes().all(),
    {
        self.sign_bits() == 0xf
    }

    /// The lanes of the register as an array of words, lane 0 first.
    pub fn to_array(self) -> (r: [u32; 4])
        ensures
            r@ == self.words(),
            r@ == self.lanes().words(),
    {
        proof {
            use_type_invariant(&self);
        }
        let reg = self.reg;
        let r = [
            (reg & 0xFFFF_FFFF) as u32,
            ((reg >> 32) & 0xFFFF_FFFF) as u32,
            ((reg >> 64) & 0xFFFF_FFFF) as u32,
            ((reg >> 96) & 0xFFFF_FFFF) as u32,
        ];
        proof {
            lemma_register_unpack(reg);
        }
        assert(r@ =~= self.words());
        assert(self.words() =~= self.lanes().words());
        r
    }
}

/// Reading the lanes of a packed register gives back the packed words.
proof fn lemma_register_pack(x: u128, y: u128, z: u128, w: u128)
    requires
        x <= 0xFFFF_FFFF,
        y <= 0xFFFF_FFFF,
        z <= 0xFFFF_FFFF,
        w <= 0xFFFF_FFFF,
    ensures
        register_lane(x | y << 32 | z << 64 | w << 96, 0) == x,
        register_lane(x | y << 32 | z << 64 | w << 96, 1) == y,
        register_lane(x | y << 32 | z << 64 | w << 96, 2) == z,
        register_lane(x | y << 32 | z << 64 | w << 96, 3) == w,
{
    let reg = x | y << 32 | z << 64 | w << 96;
    assert(((reg >> (32 * 0u128)) & 0xFFFF_FFFF) == x && ((reg >> (32 * 1u128)) & 0xFFFF_FFFF) == y
        && ((reg >> (32 * 2u128)) & 0xFFFF_FFFF) == z && ((reg >> (32 * 3u128)) & 0xFFFF_FFFF)
        == w) by (bit_vector)
        requires
            x <= 0xFFFF_FFFF,
            y <= 0xFFFF_FFFF,
            z <= 0xFFFF_FFFF,
            w <= 0xFFFF_FFFF,
            reg == x | y << 32 | z << 64 | w << 96,
    ;
}

/// Lane 0 needs no shift, and a masked 32-bit field fits a word.
proof fn lemma_register_unpack(reg: u128)
    ensures
        (reg & 0xFFFF_FFFF) == ((reg >> (32 * 0u128)) & 0xFFFF_FFFF),
        ((reg >> 32) & 0xFFFF_FFFF) == ((reg >> (32 * 1u128)) & 0xFFFF_FFFF),
        ((reg >> 64) & 0xFFFF_FFFF) == ((reg >> (32 * 2u128)) & 0xFFFF_FFFF),
        ((reg >> 96) & 0xFFFF_FFFF) == ((reg >> (32 * 3u128)) & 0xFFFF_FFFF),
        (reg & 0xFFFF_FFFF) <= 0xFFFF_FFFF,
        ((reg >> 32) & 0xFFFF_FFFF) <= 0xFFFF_FFFF,
        ((reg >> 64) & 0xFFFF_FFFF) <= 0xFFFF_FFFF,
        ((reg >> 96) & 0xFFFF_FFFF) <= 0xFFFF_FFFF,
{
    assert((reg & 0xFFFF_FFFF) == ((reg >> (32 * 0u128)) & 0xFFFF_FFFF) && ((reg >> 32)
        & 0xFFFF_FFFF) == ((reg >> (32 * 1u128)) & 0xFFFF_FFFF) && ((reg >> 64) & 0xFFFF_FFFF) == ((
    reg >> (32 * 2u128)) & 0xFFFF_FFFF) && ((reg >> 96) & 0xFFFF_FFFF) == ((reg >> (32 * 3u128))
        & 0xFFFF_FFFF) && (reg & 0xFFFF_FFFF) <= 0xFFFF_FFFF && ((reg >> 32) & 0xFFFF_FFFF)
        <= 0xFFFF_FFFF && ((reg >> 64) & 0xFFFF_FFFF) <= 0xFFFF_FFFF && ((reg >> 96) & 0xFFFF_FFFF)
        <= 0xFFFF_FFFF) by (bit_vector);
}

/// `&` on two registers acts on every lane separately.
proof fn lemma_register_and(a: u128, b: u128)
    ensures
        register_lane(a & b, 0) == register_lane(a, 0) & register_lane(b, 0),
        register_lane(a & b, 1) == register_lane(a, 1) & register_lane(b, 1),
        register_lane(a & b, 2) == register_lane(a, 2) & register_lane(b, 2),
        register_lane(a & b, 3) == register_lane(a, 3) & register_lane(b, 3),
{
    assert(register_lane(a & b, 0) == register_lane(a, 0) & register_lane(b, 0) && register_lane(
        a & b,
        1,
    ) == register_lane(a, 1) & register_lane(b, 1) && register_lane(a & b, 2) == register_lane(a, 2)
        & register_lane(b, 2) && register_lane(a & b, 3) == register_lane(a, 3) & register_lane(
        b,
        3,
    )) by (bit_vector);
}

/// `|` on two registers acts on every lane separately.
proof fn lemma_register_or(a: u128, b: u128)
    ensures
        register_lane(a | b, 0) == register_lane(a, 0) | register_lane(b, 0),
        register_lane(a | b, 1) == register_lane(a, 1) | register_lane(b, 1),
        register_lane(a | b, 2) == register_lane(a, 2) | register_lane(b, 2),
        register_lane(a | b, 3) == register_lane(a, 3) | register_lane(b, 3),
{
    assert(register_lane(a | b, 0) == register_lane(a, 0) | register_lane(b, 0) && register_lane(
        a | b,
        1,
    ) == register_lane(a, 1) | register_lane(b, 1) && register_lane(a | b, 2) == register_lane(a, 2)
        | register_lane(b, 2) && register_lane(a | b, 3) == register_lane(a, 3) | register_lane(
        b,
        3,
    )) by (bit_vector);
}

/// `!` on a register acts on every lane separately.
proof fn lemma_register_not(a: u128)
    ensures
        register_lane(!a, 0) == !register_lane(a, 0),
        register_lane(!a, 1) == !register_lane(a, 1),
        register_lane(!a, 2) == !register_lane(a, 2),
        register_lane(!a, 3) == !register_lane(a, 3),
{
    assert(register_lane(!a, 0) == !register_lane(a, 0) && register_lane(!a, 1) == !register_lane(
        a,
        1,
    ) && register_lane(!a, 2) == !register_lane(a, 2) && register_lane(!a, 3) == !register_lane(
        a,
        3,
    )) by (bit_vector);
}

/// On a register of lane words, the gathered sign bits are the four-bit
/// summary of the lanes.
proof fn lemma_register_signs(reg: u128)
    requires
        is_lane_word(register_lane(reg, 0)),
        is_lane_word(register_lane(reg, 1)),
        is_lane_word(register_lane(reg, 2)),
        is_lane_word(register_lane(reg, 3)),
    ensures
        register_signs(reg) == (Lanes {
            x: register_lane(reg, 0) != 0,
            y: register_lane(reg, 1) != 0,
            z: register_lane(reg, 2) != 0,
            w: register_lane(reg, 3) != 0,
        }).bitmask(),
        register_signs(reg) <= 0xf,
{
    let l0 = register_lane(reg, 0);
    let l1 = register_lane(reg, 1);
    let l2 = register_lane(reg, 2);
    let l3 = register_lane(reg, 3);
    let signs = register_signs(reg);
    assert(signs == (if l0 != 0 { 1u128 } else { 0 }) + (if l1 != 0 { 2u128 } else { 0 }) + (if l2
        != 0 {
        4u128
    } else {
        0
    }) + (if l3 != 0 { 8u128 } else { 0 })) by (bit_vector)
        requires
            l0 == register_lane(reg, 0),
            l1 == register_lane(reg, 1),
            l2 == register_lane(reg, 2),
            l3 == register_lane(reg, 3),
            signs == register_signs(reg),
            l0 == 0 || l0 == 0xFFFF_FFFFu32,
            l1 == 0 || l1 == 0xFFFF_FFFFu32,
            l2 == 0 || l2 == 0xFFFF_FFFFu32,
            l3 == 0 || l3 == 0xFFFF_FFFFu32,
    ;
}

} // verus!
