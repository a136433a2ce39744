//! The mask value: four boolean lanes with lane-wise logic, reductions and
//! conversions, independent of how the lanes are stored.

use crate::lanes::Lanes;
use crate::scalar::ScalarLanes;
use crate::vec4::Vec4;
use vstd::prelude::*;

verus! {

/// A four-lane boolean mask.
///
/// This is what a lane-wise comparison of two numeric vectors yields; it is in
/// essence a vector of four booleans.
#[derive(Clone, Copy, Debug, PartialEq, Eq, Structural, Ord)]
pub struct Vec4Mask(pub(crate) ScalarLanes);

impl View for Vec4Mask {
    type V = Lanes;

    /// The four truth values of the mask.
    closed spec fn view(&self) -> Lanes {
        self.0.lanes()
    }
}

impl Vec4Mask {
    /// Every lane is stored as one of the two canonical words.
    #[verifier::type_invariant]
    pub closed spec fn wf(self) -> bool {
        self.0.wf()
    }

    /// The well-formed mask that stands for `lanes`.
    pub closed spec fn of_lanes(lanes: Lanes) -> Self {
        Vec4Mask(ScalarLanes::of_lanes(lanes))
    }

    /// The value that `new` returns for the lanes `x`, `y`, `z`, `w`.
    pub open spec fn spec_new(x: bool, y: bool, z: bool, w: bool) -> Self {
        Self::of_lanes(Lanes { x, y, z, w })
    }

    /// The value that `default` returns: every lane false.
    pub open spec fn spec_default() -> Self {
        Self::of_lanes(Lanes { x: false, y: false, z: false, w: false })
    }

    /// `of_lanes` is well formed and has the lanes it was given.
    pub proof fn lemma_of_lanes(lanes: Lanes)
        ensures
            Self::of_lanes(lanes).wf(),
            Self::of_lanes(lanes)@ == lanes,
    {
        ScalarLanes::lemma_of_lanes(lanes);
    }

    /// A well-formed mask is determined by its lanes: two well-formed masks
    /// with the same view are the same value.
    pub proof fn lemma_view_determines(self)
        requires
            self.wf(),
        ensures
            self == Self::of_lanes(self@),
    {
        self.0.lemma_lanes_determine();
    }

    /// Creates the mask whose lanes are `x`, `y`, `z`, `w`.
    pub fn new(x: bool, y: bool, z: bool, w: bool) -> (r: Self)
        ensures
            r.wf(),
            r@ == (Lanes { x, y, z, w }),
            r == Self::spec_new(x, y, z, w),
    {
        let r = Vec4Mask(ScalarLanes::new(x, y, z, w));
        proof {
            r.0.lemma_lanes_determine();
        }
        r
    }

    /// Returns the four-bit summary of the mask: bit `i` is 1 where lane `i`
    /// is true and 0 where it is false, with `x` in the lowest bit. The upper
    /// 28 bits are zero.
    pub fn bitmask(self) -> (r: u32)
        ensures
            r == self@.bitmask(),
            r < 16,
    {
        self.0.bitmask()
    }

    /// Returns true if any lane is true: `x || y || z || w`.
    pub fn any(self) -> (r: bool)
        ensures
            r == self@.any(),
    {
        self.0.any()
    }

    /// Returns true if every lane is true: `x && y && z && w`.
    pub fn all(self) -> (r: bool)
        ensures
            r == self@.all(),
    {
        self.0.all()
    }

    /// Builds a vector that takes each lane from `if_true` where the mask
    /// lane is true and from `if_false` where it is false.
    pub fn select(self, if_true: Vec4, if_false: Vec4) -> (r: Vec4)
        ensures
            r == (Vec4 {
                x: if self@.x { if_true.x } else { if_false.x },
                y: if self@.y { if_true.y } else { if_false.y },
                z: if self@.z { if_true.z } else { if_false.z },
                w: if self@.w { if_true.w } else { if_false.w },
            }),
    {
        Vec4::select(self, if_true, if_false)
    }

    /// Copies the mask out as its canonical array: `0xFFFF_FFFF` for a true
    /// lane and `0` for a false one, lane 0 first.
    pub fn to_array(self) -> (r: [u32; 4])
        ensures
            r@ == self@.words(),
    {
        self.0.to_array()
    }
}

impl vstd::std_specs::ops::BitAndSpecImpl for Vec4Mask {
    open spec fn obeys_bitand_spec() -> bool {
        true
    }

    open spec fn bitand_req(self, rhs: Self) -> bool {
        true
    }

    open spec fn bitand_spec(self, rhs: Self) -> Self {
        Vec4Mask::of_lanes(self@.and(rhs@))
    }
}

impl core::ops::BitAnd for Vec4Mask {
    type Output = Self;

    /// Lane-wise conjunction.
    fn bitand(self, other: Self) -> (r: Self)
        ensures
            r.wf(),
            r@ == self@.and(other@),
    {
        let r = Vec4Mask(self.0.bitand(other.0));
        proof {
            r.0.lemma_lanes_determine();
        }
        r
    }
}

impl vstd::std_specs::ops::BitOrSpecImpl for Vec4Mask {
    open spec fn obeys_bitor_spec() -> bool {
        true
    }

    open spec fn bitor_req(self, rhs: Self) -> bool {
        true
    }

    open spec fn bitor_spec(self, rhs: Self) -> Self {
        Vec4Mask::of_lanes(self@.or(rhs@))
    }
}

impl core::ops::BitOr for Vec4Mask {
    type Output = Self;

    /// Lane-wise disjunction.
    fn bitor(self, other: Self) -> (r: Self)
        ensures
            r.wf(),
            r@ == self@.or(other@),
    {
        let r = Vec4Mask(self.0.bitor(other.0));
        proof {
            r.0.lemma_lanes_determine();
        }
        r
    }
}

impl vstd::std_specs::ops::NotSpecImpl for Vec4Mask {
    open spec fn obeys_not_spec() -> bool {
        true
    }

    open spec fn not_req(self) -> bool {
        true
    }

    open spec fn not_spec(self) -> Self {
        Vec4Mask::of_lanes(self@.not())
    }
}

impl core::ops::Not for Vec4Mask {
    type Output = Self;

    /// Lane-wise negation.
    fn not(self) -> (r: Self)
        ensures
            r.wf(),
            r@ == self@.not(),
    {
        let r = Vec4Mask(self.0.not());
        proof {
            r.0.lemma_lanes_determine();
        }
        r
    }
}

impl core::ops::BitAndAssign for Vec4Mask {
    /// Replaces the mask by its lane-wise conjunction with `other`.
    fn bitand_assign(&mut self, other: Self)
        ensures
            final(self).wf(),
            final(self)@ == old(self)@.and(other@),
            *final(self) == Vec4Mask::of_lanes(old(self)@.and(other@)),
    {
        self.0 = self.0.bitand(other.0);
        proof {
            self.0.lemma_lanes_determine();
        }
    }
}

impl core::ops::BitOrAssign for Vec4Mask {
    /// Replaces the mask by its lane-wise disjunction with `other`.
    fn bitor_assign(&mut self, other: Self)
        ensures
            final(self).wf(),
            final(self)@ == old(self)@.or(other@),
            *final(self) == Vec4Mask::of_lanes(old(self)@.or(other@)),
    {
        self.0 = self.0.bitor(other.0);
        proof {
            self.0.lemma_lanes_determine();
        }
    }
}

impl Default for Vec4Mask {
    /// The mask with every lane false.
    fn default() -> (r: Self)
        ensures
            r.wf(),
            r@ == (Lanes { x: false, y: false, z: false, w: false }),
            r == Self::spec_default(),
    {
        let r = Vec4Mask(ScalarLanes::false_identity());
        proof {
            r.0.lemma_lanes_determine();
        }
        r
    }
}

impl vstd::std_specs::convert::FromSpecImpl<Vec4Mask> for ScalarLanes {
    open spec fn obeys_from_spec() -> bool {
        true
    }

    open spec fn from_spec(mask: Vec4Mask) -> ScalarLanes {
        ScalarLanes::of_lanes(mask@)
    }
}

impl From<Vec4Mask> for ScalarLanes {
    /// The storage layout that the mask wraps.
    fn from(mask: Vec4Mask) -> (r: ScalarLanes)
        ensures
            r.wf(),
            r.lanes() == mask@,
    {
        proof {
            use_type_invariant(&mask);
            mask.0.lemma_lanes_determine();
        }
        mask.0
    }
}

} // verus!
