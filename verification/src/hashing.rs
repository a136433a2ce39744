//! Hashing of a mask: that of its canonical array.

use crate::mask::Vec4Mask;
use vstd::prelude::*;

verus! {

/// Feeds an array of four words to a hasher, through the standard library's
/// `Hash::hash` for `[u32; 4]`. Nothing is claimed of the hasher's state
/// afterwards.
#[verifier::external_body]
fn hash_array<H: core::hash::Hasher>(words: &[u32; 4], state: &mut H) {
    core::hash::Hash::hash(words, state)
}

impl core::hash::Hash for Vec4Mask {
    /// Hashes the mask as its canonical array is hashed.
    fn hash<H: core::hash::Hasher>(&self, state: &mut H) {
        let words = self.to_array();
        hash_array(&words, state)
    }
}

} // verus!
