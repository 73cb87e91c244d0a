//! The byte translation rule applied to every keystroke before it is
//! forwarded to the child process and recorded in the transcript.

use vstd::prelude::*;

verus! {

/// What the translation rule maps a byte to: line feed becomes
/// carriage return, the backspace key code becomes the delete code,
/// and every other byte passes through unchanged.
pub open spec fn spec_translate(b: u8) -> u8 {
    if b == 0x0a {
        0x0d
    } else if b == 0x08 {
        0x7f
    } else {
        b
    }
}

/// Translate one input byte. Total over all byte values.
pub fn translate_byte(b: u8) -> (r: u8)
    ensures
        r == spec_translate(b),
{
    if b == 0x0a {
        0x0d
    } else if b == 0x08 {
        0x7f
    } else {
        b
    }
}

/// Every byte outside the two substituted codes passes through
/// unchanged, so the relay is 8-bit transparent apart from the two
/// fixed substitutions.
pub proof fn lemma_translate_passthrough(b: u8)
    requires
        b != 0x0a,
        b != 0x08,
    ensures
        spec_translate(b) == b,
{
}

/// The two substitutions map to outputs disjoint from each other, so
/// distinct control bytes never collide after translation.
pub proof fn lemma_substitutions_disjoint()
    ensures
        spec_translate(0x0a) != spec_translate(0x08),
{
}

} // verus!
