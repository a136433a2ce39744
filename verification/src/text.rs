//! Text renderings of a mask: the four lanes as booleans, and the four stored
//! words in hexadecimal.

use crate::lanes::{word_truth, Lanes};
use crate::mask::Vec4Mask;
use vstd::prelude::*;
use vstd::string::*;

verus! {

/// The word that names a truth value.
pub open spec fn truth_text(b: bool) -> Seq<char> {
    if b {
        "true"@
    } else {
        "false"@
    }
}

/// The boolean rendering of four lanes: the four truth values, separated by a
/// comma and a space, in square brackets.
pub open spec fn display_text(lanes: Lanes) -> Seq<char> {
    "["@ + truth_text(lanes.x) + ", "@ + truth_text(lanes.y) + ", "@ + truth_text(lanes.z) + ", "@
        + truth_text(lanes.w) + "]"@
}

/// The lower-case hexadecimal digit for a value below 16.
pub open spec fn hex_digit(value: nat) -> Seq<char>
    recommends
        value < 16,
{
    if value == 0 {
        "0"@
    } else if value == 1 {
        "1"@
    } else if value == 2 {
        "2"@
    } else if value == 3 {
        "3"@
    } else if value == 4 {
        "4"@
    } else if value == 5 {
        "5"@
    } else if value == 6 {
        "6"@
    } else if value == 7 {
        "7"@
    } else if value == 8 {
        "8"@
    } else if value == 9 {
        "9"@
    } else if value == 10 {
        "a"@
    } else if value == 11 {
        "b"@
    } else if value == 12 {
        "c"@
    } else if value == 13 {
        "d"@
    } else if value == 14 {
        "e"@
    } else {
        "f"@
    }
}

/// The hexadecimal digits of a number, most significant first, without
/// leading zeros; zero is the single digit `0`.
pub open spec fn hex_digits(value: nat) -> Seq<char>
    decreases value,
{
    if value < 16 {
        hex_digit(value)
    } else {
        hex_digits(value / 16) + hex_digit(value % 16)
    }
}

/// A word in hexadecimal with the prefix `0x`.
pub open spec fn hex_text(word: u32) -> Seq<char> {
    "0x"@ + hex_digits(word as nat)
}

/// The hexadecimal rendering of four stored words: the type's name, then the
/// words, separated by a comma and a space, in round brackets.
pub open spec fn debug_text(words: Seq<u32>) -> Seq<char>
    recommends
        words.len() == 4,
{
    "Vec4Mask("@ + hex_text(words[0]) + ", "@ + hex_text(words[1]) + ", "@ + hex_text(words[2])
        + ", "@ + hex_text(words[3]) + ")"@
}

/// The word that names `b`.
fn truth_str(b: bool) -> (r: &'static str)
    ensures
        r@ == truth_text(b),
{
    if b {
        "true"
    } else {
        "false"
    }
}

/// The digit for `value`.
fn hex_digit_str(value: u32) -> (r: &'static str)
    requires
        value < 16,
    ensures
        r@ == hex_digit(value as nat),
{
    if value == 0 {
        "0"
    } else if value == 1 {
        "1"
    } else if value == 2 {
        "2"
    } else if value == 3 {
        "3"
    } else if value == 4 {
        "4"
    } else if value == 5 {
        "5"
    } else if value == 6 {
        "6"
    } else if value == 7 {
        "7"
    } else if value == 8 {
        "8"
    } else if value == 9 {
        "9"
    } else if value == 10 {
        "a"
    } else if value == 11 {
        "b"
    } else if value == 12 {
        "c"
    } else if value == 13 {
        "d"
    } else if value == 14 {
        "e"
    } else {
        "f"
    }
}

/// Appends the hexadecimal digits of `value` to `out`.
fn push_hex_digits(out: &mut String, value: u32)
    ensures
        final(out)@ == old(out)@ + hex_digits(value as nat),
    decreases value,
{
    if value >= 16 {
        push_hex_digits(out, value / 16);
    }
    out.append(hex_digit_str(value % 16));
}

/// Renders a word in hexadecimal with the prefix `0x`, in lower case and
/// without leading zeros.
pub fn hex_string(word: u32) -> (r: String)
    ensures
        r@ == hex_text(word),
{
    let mut out = String::from_str("0x");
    push_hex_digits(&mut out, word);
    out
}

/// Renders four stored words as booleans: a word that is not zero reads as
/// `true`.
pub fn display_words(words: &[u32; 4]) -> (r: String)
    ensures
        r@ == display_text(Lanes::of_words(words@)),
{
    let mut out = String::from_str("[");
    out.append(truth_str(words[0] != 0));
    out.append(", ");
    out.append(truth_str(words[1] != 0));
    out.append(", ");
    out.append(truth_str(words[2] != 0));
    out.append(", ");
    out.append(truth_str(words[3] != 0));
    out.append("]");
    out
}

/// Renders four stored words in hexadecimal.
pub fn debug_words(words: &[u32; 4]) -> (r: String)
    ensures
        r@ == debug_text(words@),
{
    let mut out = String::from_str("Vec4Mask(");
    out.append(hex_string(words[0]).as_str());
    out.append(", ");
    out.append(hex_string(words[1]).as_str());
    out.append(", ");
    out.append(hex_string(words[2]).as_str());
    out.append(", ");
    out.append(hex_string(words[3]).as_str());
    out.append(")");
    out
}

impl Vec4Mask {
    /// The mask as text: its four lanes as booleans, as in
    /// `[true, false, true, false]`.
    pub fn to_string(&self) -> (r: String)
        ensures
            r@ == display_text(self@),
    {
        let words = self.to_array();
        display_words(&words)
    }

    /// The mask as text for inspection: its four stored words in hexadecimal,
    /// as in `Vec4Mask(0xffffffff, 0x0, 0xffffffff, 0x0)`.
    pub fn to_debug_string(&self) -> (r: String)
        ensures
            r@ == debug_text(self@.words()),
    {
        let words = self.to_array();
        debug_words(&words)
    }
}

} // verus!
