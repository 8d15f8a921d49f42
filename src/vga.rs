use vstd::prelude::*;
use crate::cp437::{cp437_of, normalize_to_cp437};

verus! {

pub const VGA_WIDTH: u16 = 80;

pub const VGA_HEIGHT: u16 = 25;

/// Attribute byte of every cell written: white on black.
pub const COLOR: u8 = 0x0F;

/// A blank cell: a space in the default color.
pub const BLANK_CELL: u16 = 0x0F20;

/// Tab stops fall on every multiple of this many columns.
pub const TAB_WIDTH: u16 = 8;

/// One cell written: its index, and the 16-bit value (glyph byte, then color
/// byte) stored there.
#[derive(Clone, Copy, Debug, PartialEq, Eq, Structural)]
pub struct CellWrite {
    pub index: u16,
    pub value: u16,
}

/// What writing one character does to the display's memory.
#[derive(Clone, Copy, Debug, PartialEq, Eq, Structural)]
pub struct CharEffect {
    /// The cell written, if the character shows a glyph.
    pub put: Option<CellWrite>,
    /// Whether every line then moves up by one and the last line is blanked.
    pub scrolled: bool,
}

/// The cell value showing glyph `b` in the default color.
pub open spec fn cell_value(b: u8) -> u16 {
    (b as u16) | ((COLOR as u16) << 8)
}

/// The cursor column after `b` at column `x`, before wrapping to the next line.
pub open spec fn column_after(x: u16, b: u8) -> int {
    if b == 0x0A || b == 0x0D {
        0
    } else if b == 0x09 {
        (x as int / 8) * 8 + 8
    } else {
        x + 1
    }
}

/// Writing `c` with the cursor at (`x`, `y`): the cursor after, and the effect.
pub open spec fn screen_step(x: u16, y: u16, c: char) -> (u16, u16, CharEffect) {
    let b = cp437_of(c);
    let put = if b == 0x0A || b == 0x0D || b == 0x09 {
        None
    } else {
        Some(CellWrite { index: (y * 80 + x) as u16, value: cell_value(b) })
    };
    let col = column_after(x, b);
    let row = if b == 0x0A || col >= 80 {
        y + 1
    } else {
        y as int
    };
    let new_x = if col >= 80 {
        0
    } else {
        col
    };
    let scrolled = row >= 25;
    let new_y = if scrolled {
        24
    } else {
        row
    };
    (new_x as u16, new_y as u16, CharEffect { put, scrolled })
}

/// Writing the characters of `s` in order from (`x`, `y`): the cursor after,
/// and the effect of each character.
pub open spec fn screen_run(x: u16, y: u16, s: Seq<char>) -> (u16, u16, Seq<CharEffect>)
    decreases s.len(),
{
    if s.len() == 0 {
        (x, y, Seq::empty())
    } else {
        let prev = screen_run(x, y, s.drop_last());
        let next = screen_step(prev.0, prev.1, s.last());
        (next.0, next.1, prev.2.push(next.2))
    }
}

/// The text display's cursor: 80 columns by 25 lines.
pub struct VGAScreen {
    x: u16,
    y: u16,
}

impl VGAScreen {
    pub closed spec fn x(&self) -> u16 {
        self.x
    }

    pub closed spec fn y(&self) -> u16 {
        self.y
    }

    /// The cursor lies on the screen.
    pub open spec fn wf(&self) -> bool {
        self.x() < VGA_WIDTH && self.y() < VGA_HEIGHT
    }

    /// A cursor in the top-left corner.
    pub fn new() -> (r: VGAScreen)
        ensures
            r.wf(),
            r.x() == 0 && r.y() == 0,
    {
        VGAScreen { x: 0, y: 0 }
    }

    /// Moves the cursor to the top-left corner.
    pub fn reset(&mut self)
        ensures
            final(self).wf(),
            final(self).x() == 0 && final(self).y() == 0,
    {
        self.x = 0;
        self.y = 0;
    }

    /// The cell index of the cursor, as the display controller takes it.
    pub fn cursor_index(&self) -> (r: u16)
        requires
            self.wf(),
        ensures
            r == self.y() * 80 + self.x(),
    {
        self.y * VGA_WIDTH + self.x
    }

    /// Writes one character: shows its glyph at the cursor, or moves the cursor
    /// for a newline, carriage return or tab; wraps at the end of a line and
    /// scrolls at the end of the screen.
    pub fn write_char(&mut self, character: char) -> (r: CharEffect)
        requires
            old(self).wf(),
        ensures
            final(self).wf(),
            (final(self).x(), final(self).y(), r) == screen_step(old(self).x(), old(self).y(), character),
    {
        let b = normalize_to_cp437(character);
        let put = if b == 0x0A || b == 0x0D || b == 0x09 {
            None
        } else {
            Some(CellWrite { index: self.y * VGA_WIDTH + self.x, value: (b as u16) | ((COLOR as u16) << 8) })
        };
        let col: u16 = if b == 0x0A || b == 0x0D {
            0
        } else if b == 0x09 {
            (self.x / TAB_WIDTH) * TAB_WIDTH + TAB_WIDTH
        } else {
            self.x + 1
        };
        let row: u16 = if b == 0x0A || col >= VGA_WIDTH {
            self.y + 1
        } else {
            self.y
        };
        let scrolled = row >= VGA_HEIGHT;
        self.x = if col >= VGA_WIDTH {
            0
        } else {
            col
        };
        self.y = if scrolled {
            VGA_HEIGHT - 1
        } else {
            row
        };
        CharEffect { put, scrolled }
    }

    /// Writes the characters of `s` in order; returns the effect of each.
    pub fn write_string(&mut self, s: &str) -> (r: Vec<CharEffect>)
        requires
            old(self).wf(),
        ensures
            final(self).wf(),
            (final(self).x(), final(self).y(), r@) == screen_run(old(self).x(), old(self).y(), s@),
    {
        let n = s.unicode_len();
        let mut out: Vec<CharEffect> = Vec::new();
        let mut i: usize = 0;
        while i < n
            invariant
                n == s@.len(),
                i <= n,
                self.wf(),
                (self.x(), self.y(), out@) == screen_run(old(self).x(), old(self).y(), s@.take(i as int)),
            decreases n - i,
        {
            let c = s.get_char(i);
            let e = self.write_char(c);
            proof {
                assert(s@.take(i as int + 1).drop_last() =~= s@.take(i as int));
                assert(s@.take(i as int + 1).last() == c);
            }
            out.push(e);
            i = i + 1;
        }
        proof {
            assert(s@.take(n as int) =~= s@);
        }
        out
    }
}

} // verus!
