use vstd::prelude::*;

verus! {

/// Byte shown for a character the display's code page lacks: a small square.
pub const UNKNOWN_GLYPH: u8 = 0xFE;

/// The code-page-437 byte the display shows for `c`: Portuguese accented
/// letters map to their glyphs, printable ASCII from space up to but not
/// including `~`, and newline, tab and carriage return, map to themselves,
/// anything else to a small square.
pub open spec fn cp437_of(c: char) -> u8 {
    if c == 'á' {
        0xA0
    } else if c == 'à' {
        0x85
    } else if c == 'â' {
        0x83
    } else if c == 'ã' {
        0xA3
    } else if c == 'é' {
        0x82
    } else if c == 'ê' {
        0x88
    } else if c == 'í' {
        0x8A
    } else if c == 'ó' {
        0xA2
    } else if c == 'õ' {
        0xA5
    } else if c == 'ú' {
        0xA4
    } else if c == 'ç' {
        0x87
    } else if (0x20 <= (c as u32) < 0x7E) || c == '\n' || c == '\t' || c == '\r' {
        c as u8
    } else {
        UNKNOWN_GLYPH
    }
}

/// Maps a character to the byte the text display shows for it.
pub fn normalize_to_cp437(character: char) -> (r: u8)
    ensures
        r == cp437_of(character),
{
    let code = character as u32;
    if character == 'á' {
        0xA0
    } else if character == 'à' {
        0x85
    } else if character == 'â' {
        0x83
    } else if character == 'ã' {
        0xA3
    } else if character == 'é' {
        0x82
    } else if character == 'ê' {
        0x88
    } else if character == 'í' {
        0x8A
    } else if character == 'ó' {
        0xA2
    } else if character == 'õ' {
        0xA5
    } else if character == 'ú' {
        0xA4
    } else if character == 'ç' {
        0x87
    } else if (0x20 <= code && code < 0x7E) || character == '\n' || character == '\t'
        || character == '\r' {
        character as u8
    } else {
        UNKNOWN_GLYPH
    }
}

} // verus!
