//! The four-element numeric vector that a mask selects from. Selection moves
//! lanes and never interprets them, so each lane is carried as its raw 32-bit
//! pattern.

use crate::lanes::{is_lane_word, word_truth};
use crate::mask::Vec4Mask;
use vstd::prelude::*;

verus! {

/// Four numeric lanes, each held as its 32-bit pattern.
#[derive(Clone, Copy, Debug, PartialEq, Eq, Structural, Hash)]
pub struct Vec4 {
    pub x: u32,
    pub y: u32,
    pub z: u32,
    pub w: u32,
}

/// The lane that a mask lane picks: `if_true` where it is set, `if_false`
/// where it is clear.
pub open spec fn pick(lane: bool, if_true: u32, if_false: u32) -> u32 {
    if lane {
        if_true
    } else {
        if_false
    }
}

/// Blends two words under a lane word: the bits of `if_true` where the lane
/// word has ones, the bits of `if_false` where it has zeros.
fn blend(lane: u32, if_true: u32, if_false: u32) -> (r: u32)
    requires
        is_lane_word(lane),
    ensures
        r == pick(word_truth(lane), if_true, if_false),
{
    assert(((if_true & lane) | (if_false & !lane)) == (if lane != 0 {
        if_true
    } else {
        if_false
    })) by (bit_vector)
        requires
            lane == 0 || lane == 0xFFFF_FFFFu32,
    ;
    (if_true & lane) | (if_false & !lane)
}

impl Vec4 {
    /// The vector with the given lane patterns.
    pub fn new(x: u32, y: u32, z: u32, w: u32) -> (r: Self)
        ensures
            r == (Vec4 { x, y, z, w }),
    {
        Vec4 { x, y, z, w }
    }

    /// Chooses every lane from `if_true` where the mask lane is true and from
    /// `if_false` where it is false.
    pub fn select(mask: Vec4Mask, if_true: Vec4, if_false: Vec4) -> (r: Vec4)
        ensures
            r.x == pick(mask@.x, if_true.x, if_false.x),
            r.y == pick(mask@.y, if_true.y, if_false.y),
            r.z == pick(mask@.z, if_true.z, if_false.z),
            r.w == pick(mask@.w, if_true.w, if_false.w),
    {
        let words = mask.to_array();
        Vec4 {
            x: blend(words[0], if_true.x, if_false.x),
            y: blend(words[1], if_true.y, if_false.y),
            z: blend(words[2], if_true.z, if_false.z),
            w: blend(words[3], if_true.w, if_false.w),
        }
    }
}

} // verus!
