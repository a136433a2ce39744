//! Laws of the mask algebra and of its storage layouts, each proved from the
//! contracts of the operations it speaks of.

use crate::lanes::{lane_word, Lanes};
use crate::mask::Vec4Mask;
use crate::order::array_order;
use crate::scalar::ScalarLanes;
use crate::vector::VectorLanes;
use vstd::prelude::*;
use vstd::std_specs::ops::{BitAndSpec, BitOrSpec, NotSpec};

verus! {

/// A mask built from four booleans reads back, through its canonical array,
/// as all ones for each true lane and zero for each false one; its `any` is
/// the disjunction and its `all` the conjunction of the four booleans.
pub proof fn law_construct_reads_back(x: bool, y: bool, z: bool, w: bool)
    ensures
        Vec4Mask::spec_new(x, y, z, w).wf(),
        Vec4Mask::spec_new(x, y, z, w)@.words() == seq![
            lane_word(x),
            lane_word(y),
            lane_word(z),
            lane_word(w),
        ],
        Vec4Mask::spec_new(x, y, z, w)@.any() == (x || y || z || w),
        Vec4Mask::spec_new(x, y, z, w)@.all() == (x && y && z && w),
{
    Vec4Mask::lemma_of_lanes(Lanes { x, y, z, w });
}

/// The four-bit summary of a mask has bit `i` set exactly when lane `i` is
/// true, and no bit above the fourth.
pub proof fn law_bitmask_bits(lanes: Lanes)
    ensures
        0 <= lanes.bitmask() < 16,
        (lanes.bitmask() % 2 == 1) == lanes.x,
        ((lanes.bitmask() / 2) % 2 == 1) == lanes.y,
        ((lanes.bitmask() / 4) % 2 == 1) == lanes.z,
        ((lanes.bitmask() / 8) % 2 == 1) == lanes.w,
{
}

/// De Morgan: the negation of a conjunction is the disjunction of the
/// negations.
pub proof fn law_de_morgan_and(a: Vec4Mask, b: Vec4Mask)
    ensures
        a.bitand_spec(b).not_spec() == a.not_spec().bitor_spec(b.not_spec()),
{
    Vec4Mask::lemma_of_lanes(a@.and(b@));
    Vec4Mask::lemma_of_lanes(a@.not());
    Vec4Mask::lemma_of_lanes(b@.not());
}

/// De Morgan: the negation of a disjunction is the conjunction of the
/// negations.
pub proof fn law_de_morgan_or(a: Vec4Mask, b: Vec4Mask)
    ensures
        a.bitor_spec(b).not_spec() == a.not_spec().bitand_spec(b.not_spec()),
{
    Vec4Mask::lemma_of_lanes(a@.or(b@));
    Vec4Mask::lemma_of_lanes(a@.not());
    Vec4Mask::lemma_of_lanes(b@.not());
}

/// Negating a mask twice gives the mask back.
pub proof fn law_double_negation(a: Vec4Mask)
    requires
        a.wf(),
    ensures
        a.not_spec().not_spec() == a,
{
    Vec4Mask::lemma_of_lanes(a@.not());
    a.lemma_view_determines();
    assert(a@.not().not() == a@);
}

/// Conjunction and disjunction do not depend on the order of their operands.
pub proof fn law_commutative(a: Vec4Mask, b: Vec4Mask)
    ensures
        a.bitand_spec(b) == b.bitand_spec(a),
        a.bitor_spec(b) == b.bitor_spec(a),
{
    assert(a@.and(b@) == b@.and(a@));
    assert(a@.or(b@) == b@.or(a@));
}

/// Every operation of the algebra yields a well-formed mask with the lanes
/// that the lane-wise operation gives.
pub proof fn law_operations_well_formed(a: Vec4Mask, b: Vec4Mask)
    ensures
        a.bitand_spec(b).wf() && a.bitand_spec(b)@ == a@.and(b@),
        a.bitor_spec(b).wf() && a.bitor_spec(b)@ == a@.or(b@),
        a.not_spec().wf() && a.not_spec()@ == a@.not(),
{
    Vec4Mask::lemma_of_lanes(a@.and(b@));
    Vec4Mask::lemma_of_lanes(a@.or(b@));
    Vec4Mask::lemma_of_lanes(a@.not());
}

/// The default mask is the mask built from four false lanes.
pub proof fn law_default_is_all_false()
    ensures
        Vec4Mask::spec_default() == Vec4Mask::spec_new(false, false, false, false),
        !Vec4Mask::spec_default()@.any(),
{
    Vec4Mask::lemma_of_lanes(Lanes { x: false, y: false, z: false, w: false });
}

/// Two well-formed masks are equal exactly when their lanes are.
pub proof fn law_equality_by_lanes(a: Vec4Mask, b: Vec4Mask)
    requires
        a.wf(),
        b.wf(),
    ensures
        (a == b) == (a@ == b@),
        (a == b) == (a@.words() == b@.words()),
{
    a.lemma_view_determines();
    b.lemma_view_determines();
    if a@.words() == b@.words() {
        assert(a@.words()[0] == b@.words()[0]);
        assert(a@.words()[1] == b@.words()[1]);
        assert(a@.words()[2] == b@.words()[2]);
        assert(a@.words()[3] == b@.words()[3]);
    }
}

/// The two storage layouts present the same canonical array for the same
/// lanes.
pub proof fn law_layouts_agree(scalar: ScalarLanes, vector: VectorLanes)
    requires
        scalar.wf(),
        vector.wf(),
        scalar.lanes() == vector.lanes(),
    ensures
        scalar.words() == vector.words(),
{
    scalar.lemma_lanes_determine();
    vector.lemma_words_canonical();
}

/// Built from the same four booleans, the two storage layouts present the
/// same canonical array.
pub proof fn law_layouts_agree_on_construction(x: bool, y: bool, z: bool, w: bool)
    ensures
        ScalarLanes::of_lanes(Lanes { x, y, z, w }).words() == VectorLanes::of_lanes(
            Lanes { x, y, z, w },
        ).words(),
{
    ScalarLanes::lemma_of_lanes(Lanes { x, y, z, w });
    VectorLanes::lemma_of_lanes(Lanes { x, y, z, w });
}

/// Two pairs of layouts with the same lanes compare alike: their canonical
/// arrays are equal in the one layout exactly when they are in the other, and
/// are ordered the same way.
pub proof fn law_layouts_compare_alike(
    scalar_a: ScalarLanes,
    scalar_b: ScalarLanes,
    vector_a: VectorLanes,
    vector_b: VectorLanes,
)
    requires
        scalar_a.wf(),
        scalar_b.wf(),
        vector_a.wf(),
        vector_b.wf(),
        scalar_a.lanes() == vector_a.lanes(),
        scalar_b.lanes() == vector_b.lanes(),
    ensures
        (scalar_a.words() == scalar_b.words()) == (vector_a.words() == vector_b.words()),
        array_order(scalar_a.words(), scalar_b.words()) == array_order(
            vector_a.words(),
            vector_b.words(),
        ),
{
    law_layouts_agree(scalar_a, vector_a);
    law_layouts_agree(scalar_b, vector_b);
}

} // verus!
