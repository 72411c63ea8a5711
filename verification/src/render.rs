//! Rendering configuration for an outside board formatter.
//!
//! Drawing a board is left to a collaborator outside this crate; the crate
//! only fixes the configuration record the collaborator consumes, with its
//! defaults, and a placeholder renderer.

use vstd::prelude::*;

use crate::bitboard::Bitboard;

verus! {

/// Options an outside board formatter recognizes: which decorations to draw,
/// the label sequences for columns and rows, and the glyphs for clear and set
/// squares.
#[derive(Clone, Copy, Debug)]
pub struct FormatterFlags {
    pub show_board: bool,
    pub show_files: bool,
    pub show_ranks: bool,
    pub files: [char; 8],
    pub ranks: [char; 8],
    pub empty_field: char,
    pub not_empty_field: char,
}

impl Default for FormatterFlags {
    /// The default rendering: grid and both label rows drawn, a space for a
    /// clear square and an `x` for a set one.
    fn default() -> (r: Self)
        ensures
            r.show_board,
            r.show_files,
            r.show_ranks,
            r.files@ =~= seq!['A', 'B', 'C', 'D', 'E', 'F', 'G', 'H'],
            r.ranks@ =~= seq!['1', '2', '3', '4', '5', '6', '7', '8'],
            r.empty_field == ' ',
            r.not_empty_field == 'x',
    {
        FormatterFlags {
            show_board: true,
            show_files: true,
            show_ranks: true,
            files: ['A', 'B', 'C', 'D', 'E', 'F', 'G', 'H'],
            ranks: ['1', '2', '3', '4', '5', '6', '7', '8'],
            empty_field: ' ',
            not_empty_field: 'x',
        }
    }
}

impl Bitboard {
    /// Placeholder for the outside renderer: a single space, whatever the
    /// board and the flags hold.
    pub fn as_string(&self, ff: FormatterFlags) -> (r: String)
        ensures
            r@ == " "@,
    {
        " ".to_owned()
    }
}

} // verus!
