//! Conversion of a mask to its canonical array.

use crate::lanes::lane_word;
use crate::mask::Vec4Mask;
use vstd::prelude::*;

verus! {

impl vstd::std_specs::convert::FromSpecImpl<Vec4Mask> for [u32; 4] {
    open spec fn obeys_from_spec() -> bool {
        true
    }

    open spec fn from_spec(mask: Vec4Mask) -> [u32; 4] {
        let lanes = mask@;
        [lane_word(lanes.x), lane_word(lanes.y), lane_word(lanes.z), lane_word(lanes.w)]
    }
}

impl From<Vec4Mask> for [u32; 4] {
    /// The canonical array of the mask, lane 0 first.
    fn from(mask: Vec4Mask) -> (r: [u32; 4])
        ensures
            r@ == mask@.words(),
    {
        mask.to_array()
    }
}

} // verus!
