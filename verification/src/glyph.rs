//! Glyph classes: which characters are blank, drawable, alphanumeric, and how a
//! character maps to the single byte that the display and the file store hold.

use vstd::prelude::*;

verus! {

/// The glyph of an empty cell.
pub const BLANK: char = ' ';

/// The neutral border glyph.
pub const BORDER: char = '.';

/// The border glyph along the edges of the active window.
pub const HIGHLIGHT: char = '*';

/// The line feed.
pub const LINE_FEED: char = '\n';

/// The backspace control character.
pub const BACKSPACE: char = '\u{8}';

/// Whether the standard library classifies `c` as alphanumeric, that is as
/// alphabetic or numeric by its Unicode tables.
pub uninterp spec fn alphanumeric(c: char) -> bool;

/// `char::is_alphanumeric` of the standard library. Nothing is proved of it:
/// its answer is taken as given and named `alphanumeric`. The answer is a
/// function of the character alone, fixed by the Unicode tables that the
/// standard library was built with.
pub assume_specification[ char::is_alphanumeric ](c: char) -> (b: bool)
    ensures
        b == alphanumeric(c),
;

/// The low eight bits of a character's code point: the byte that a cell shows
/// on the display and that is stored when a window is captured.
pub open spec fn low_byte(c: char) -> u8 {
    ((c as int) % 256) as u8
}

/// The character whose code point is the byte `b`.
pub open spec fn glyph_of(b: u8) -> char {
    b as char
}

/// A character is drawable when its low byte is printable ASCII,
/// from the space to the tilde.
pub open spec fn drawable(c: char) -> bool {
    0x20 <= low_byte(c) <= 0x7e
}

/// The character of the decimal digit `d`.
pub open spec fn digit(d: int) -> char {
    ('0' as int + d) as char
}

/// Truncates a character to its low byte.
pub fn byte_of(c: char) -> (b: u8)
    ensures
        b == low_byte(c),
{
    let x: u32 = c as u32;
    let m: u32 = x & 0xff;
    assert(m == x % 256) by (bit_vector)
        requires
            m == x & 0xff,
    ;
    m as u8
}

/// Widens a byte to the character with the same code point.
pub fn char_of(b: u8) -> (c: char)
    ensures
        c == glyph_of(b),
        low_byte(c) == b,
{
    b as char
}

/// Whether the display can draw `c`.
pub fn is_drawable(c: char) -> (b: bool)
    ensures
        b == drawable(c),
{
    let low: u8 = byte_of(c);
    0x20 <= low && low <= 0x7e
}

/// The character of a decimal digit.
pub fn digit_char(d: usize) -> (c: char)
    requires
        d < 10,
    ensures
        c == digit(d as int),
{
    char_of(48u8 + d as u8)
}

} // verus!
