//! Cell addresses and their `A1`-style rendering.

use vstd::prelude::*;
use crate::text::{decimal, push_char, push_decimal};

verus! {

/// The address of a cell: 0-based row and column.
#[derive(Clone, Copy, Debug, PartialEq, Eq, Structural)]
pub struct Location {
    pub row: u64,
    pub col: usize,
}

/// The letter for the base-26 digit `d` (0 is `A`, 25 is `Z`).
pub open spec fn letter(d: nat) -> char {
    ((d + 65) as u8) as char
}

/// Column index rendered in bijective base 26: 0 is `A`, 25 is `Z`,
/// 26 is `AA`, 701 is `ZZ`, 702 is `AAA`.
pub open spec fn col_letters(col: nat) -> Seq<char>
    decreases col,
{
    if col < 26 {
        seq![letter(col)]
    } else {
        col_letters((col / 26 - 1) as nat).push(letter(col % 26))
    }
}

/// The `A1`-style text of a location: column letters, then the 1-based row.
pub open spec fn location_text(loc: Location) -> Seq<char> {
    col_letters(loc.col as nat) + decimal(loc.row as nat + 1)
}

/// The letter for a base-26 digit.
pub fn col_to_char(c: usize) -> (r: char)
    requires
        c < 26,
    ensures
        r == letter(c as nat),
{
    let b: u8 = c as u8;
    (b + 65) as char
}

fn push_col_letters(s: &mut String, col: usize)
    ensures
        final(s)@ == old(s)@ + col_letters(col as nat),
    decreases col,
{
    if col >= 26 {
        push_col_letters(s, col / 26 - 1);
    }
    push_char(s, col_to_char(col % 26));
    assert(final(s)@ =~= old(s)@ + col_letters(col as nat));
}

/// The column letters of `col`.
pub fn col_to_string(col: usize) -> (r: String)
    ensures
        r@ == col_letters(col as nat),
{
    let mut s = String::new();
    push_col_letters(&mut s, col);
    assert(s@ =~= col_letters(col as nat));
    s
}

impl Location {
    /// The `A1`-style rendering: `Location { row: 99, col: 1 }` is `B100`.
    pub fn to_string(&self) -> (r: String)
        ensures
            r@ == location_text(*self),
    {
        let mut s = col_to_string(self.col);
        push_decimal(&mut s, self.row as u128 + 1);
        s
    }
}

} // verus!
