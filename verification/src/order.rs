//! The order on masks: that of their canonical arrays, compared word by word
//! from lane 0 on.

use crate::mask::Vec4Mask;
use core::cmp::Ordering;
use vstd::prelude::*;

verus! {

/// How two words compare.
pub open spec fn word_order(a: u32, b: u32) -> Ordering {
    if a < b {
        Ordering::Less
    } else if a == b {
        Ordering::Equal
    } else {
        Ordering::Greater
    }
}

/// The first comparison decides unless it finds equality; then the rest does.
pub open spec fn decided_by(first: Ordering, rest: Ordering) -> Ordering {
    if first == Ordering::Equal {
        rest
    } else {
        first
    }
}

/// The lexicographic order of two arrays of four words.
pub open spec fn array_order(a: Seq<u32>, b: Seq<u32>) -> Ordering
    recommends
        a.len() == 4,
        b.len() == 4,
{
    decided_by(
        word_order(a[0], b[0]),
        decided_by(
            word_order(a[1], b[1]),
            decided_by(word_order(a[2], b[2]), word_order(a[3], b[3])),
        ),
    )
}

/// Compares two words.
fn compare_words(a: u32, b: u32) -> (r: Ordering)
    ensures
        r == word_order(a, b),
{
    if a < b {
        Ordering::Less
    } else if a == b {
        Ordering::Equal
    } else {
        Ordering::Greater
    }
}

/// Compares two arrays of four words lexicographically.
pub fn compare_arrays(a: &[u32; 4], b: &[u32; 4]) -> (r: Ordering)
    ensures
        r == array_order(a@, b@),
{
    let mut index: usize = 0;
    while index < 4
        invariant
            index <= 4,
            forall|k: int| 0 <= k < index ==> a@[k] == b@[k],
        decreases 4 - index,
    {
        let step = compare_words(a[index], b[index]);
        match step {
            Ordering::Equal => {},
            _ => {
                return step;
            },
        }
        index += 1;
    }
    Ordering::Equal
}

impl vstd::std_specs::cmp::PartialOrdSpecImpl for Vec4Mask {
    open spec fn obeys_partial_cmp_spec() -> bool {
        true
    }

    open spec fn partial_cmp_spec(&self, other: &Self) -> Option<Ordering> {
        Some(array_order(self@.words(), other@.words()))
    }
}

impl PartialOrd for Vec4Mask {
    /// Orders two masks as their canonical arrays are ordered.
    fn partial_cmp(&self, other: &Self) -> (r: Option<Ordering>) {
        let a = self.to_array();
        let b = other.to_array();
        Some(compare_arrays(&a, &b))
    }
}

} // verus!
