use vstd::prelude::*;

verus! {

/// A framed box of text lines drawn over the middle of the terminal.
#[derive(Debug)]
pub struct Popup {
    pub width: u16,
    pub x: u16,
    pub y: u16,
    pub lines: Vec<String>,
}

/// The blank columns left in a popup line of `width` columns, between the two
/// frame characters, around text of `line_len` columns; none when the text
/// does not fit.
pub open spec fn free_columns(width: nat, line_len: nat) -> nat {
    if line_len + 2 <= width {
        (width - line_len - 2) as nat
    } else {
        0
    }
}

impl Popup {
    /// A popup for a terminal of `cols` columns and `rows` rows: it starts a
    /// quarter of the way in and spans half the width.
    pub fn new(lines: Vec<String>, cols: u16, rows: u16) -> (r: Popup)
        ensures
            r.x == cols / 4,
            r.y == rows / 4,
            r.width == 2 * (cols / 4),
            r.lines == lines,
    {
        let x: u16 = cols / 4;
        let y: u16 = rows / 4;
        Popup { width: x * 2, x, y, lines }
    }

    /// The blank columns to the left and to the right of a centred line of
    /// `line_len` columns; the odd column goes to the right.
    pub fn line_padding(&self, line_len: usize) -> (r: (u16, u16))
        ensures
            r.0 == free_columns(self.width as nat, line_len as nat) / 2,
            r.0 + r.1 == free_columns(self.width as nat, line_len as nat),
    {
        let total: u16 = if line_len <= self.width as usize && self.width as usize - line_len >= 2 {
            (self.width as usize - line_len - 2) as u16
        } else {
            0
        };
        (total / 2, total - total / 2)
    }
}

} // verus!
