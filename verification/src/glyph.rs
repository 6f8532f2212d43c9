//! How an expected byte is shown, and how a keystroke is judged against it.

use vstd::prelude::*;

verus! {

/// The byte that stands for a space in the practice text.
pub const SPACE: u8 = 0x20;

/// The byte that stands for a line break in the practice text.
pub const NEWLINE: u8 = 0x0a;

/// Glyph shown in place of a space.
pub const SPACE_GLYPH: char = '␣';

/// Glyph shown in place of a line break and of any byte outside ASCII.
pub const OPAQUE_GLYPH: char = '·';

/// Glyph that marks the end of a line shorter than the configured width.
pub const LINE_END_GLYPH: char = '§';

/// Whether `b` lies in the ASCII range.
pub open spec fn is_ascii_byte(b: u8) -> bool {
    b < 0x80
}

/// Whether every keystroke is accepted at a position that expects `b`.
pub open spec fn is_lenient(b: u8) -> bool {
    !is_ascii_byte(b) || b == NEWLINE
}

/// The glyph under which the expected byte `b` appears on screen.
pub open spec fn spec_glyph(b: u8) -> char {
    if b == SPACE {
        SPACE_GLYPH
    } else if b == NEWLINE {
        OPAQUE_GLYPH
    } else if is_ascii_byte(b) {
        b as char
    } else {
        OPAQUE_GLYPH
    }
}

/// Whether the keystroke `typed` is accepted where `expected` stands.
pub open spec fn spec_accepts(expected: u8, typed: char) -> bool {
    is_lenient(expected) || expected as char == typed
}

/// Maps an expected byte to the glyph that is painted for it.
pub fn glyph(b: u8) -> (g: char)
    ensures
        g == spec_glyph(b),
{
    if b == SPACE {
        SPACE_GLYPH
    } else if b == NEWLINE {
        OPAQUE_GLYPH
    } else if b < 0x80 {
        b as char
    } else {
        OPAQUE_GLYPH
    }
}

/// Judges one keystroke against the byte expected at the cursor.
pub fn accepts(expected: u8, typed: char) -> (ok: bool)
    ensures
        ok == spec_accepts(expected, typed),
{
    expected >= 0x80 || expected == NEWLINE || expected as char == typed
}

} // verus!
