//! What a rendered board looks like: thirteen lines of thirteen characters.

use crate::game::Square;
use crate::rules::BoardState;
use vstd::prelude::*;

verus! {

/// The character that stands for a square on a rendered board.
pub open spec fn square_glyph(square: Square) -> char {
    match square {
        Some(player) => player.glyph(),
        None => ' ',
    }
}

impl BoardState {
    /// The character at the given row and column of the rendered board. There
    /// are thirteen rows of thirteen characters, each followed by a line feed.
    /// Every fourth row and every fourth column is a border of `#`; between
    /// the borders stand the squares, board by board.
    pub open spec fn glyph_at(self, row: int, column: int) -> char {
        if column == 13 {
            '\n'
        } else if row % 4 == 0 || column % 4 == 0 {
            '#'
        } else {
            square_glyph(
                self.squares[(row / 4) * 3 + column / 4][(row % 4 - 1) * 3 + column % 4 - 1],
            )
        }
    }

    /// The rendered board.
    pub open spec fn rendering(self) -> Seq<char> {
        Seq::new(182, |i: int| self.glyph_at(i / 14, i % 14))
    }

    /// The character at the given row and column of a band: the three
    /// boards from `start` on, side by side, with the border below them.
    pub open spec fn band_glyph_at(self, start: int, row: int, column: int) -> char {
        if column == 13 {
            '\n'
        } else if row == 3 || column % 4 == 0 {
            '#'
        } else {
            square_glyph(self.squares[start + column / 4][row * 3 + column % 4 - 1])
        }
    }

    /// The rendered band of the three boards from `start` on: four lines.
    #[verifier::opaque]
    pub open spec fn band(self, start: int) -> Seq<char> {
        Seq::new(56, |i: int| self.band_glyph_at(start, i / 14, i % 14))
    }
}

impl BoardState {
    /// A border line: thirteen `#` and a line feed.
    pub open spec fn border() -> Seq<char> {
        Seq::new(14, |i: int| if i == 13 { '\n' } else { '#' })
    }

    /// A band has four lines of thirteen characters and a line feed.
    pub proof fn lemma_band_len(self, start: int)
        ensures
            self.band(start).len() == 56,
    {
        reveal(BoardState::band);
    }

    /// Each line of a band begins with a border and ends with a line feed.
    pub proof fn lemma_band_line_ends(self, start: int, row: int)
        requires
            0 <= row < 4,
        ensures
            self.band(start)[14 * row] == '#',
            self.band(start)[14 * row + 13] == '\n',
    {
        reveal(BoardState::band);
        assert((14 * row) / 14 == row && (14 * row) % 14 == 0);
        assert((14 * row + 13) / 14 == row && (14 * row + 13) % 14 == 13);
    }

    /// The last line of a band is a border.
    pub proof fn lemma_band_last_line(self, start: int, column: int)
        requires
            0 <= column < 13,
        ensures
            self.band(start)[42 + column] == '#',
    {
        reveal(BoardState::band);
        assert((42 + column) / 14 == 3 && (42 + column) % 14 == column);
    }

    /// Where the squares of one board stand in one line of a band, and the
    /// border that follows them.
    pub proof fn lemma_band_glyphs(self, start: int, row: int, board: int)
        requires
            0 <= row < 3,
            0 <= board < 3,
        ensures
            ({
                let at = 14 * row + 1 + 4 * board;
                let squares = self.squares[start + board];
                &&& self.band(start)[at] == square_glyph(squares[3 * row])
                &&& self.band(start)[at + 1] == square_glyph(squares[3 * row + 1])
                &&& self.band(start)[at + 2] == square_glyph(squares[3 * row + 2])
                &&& self.band(start)[at + 3] == '#'
            }),
    {
        reveal(BoardState::band);
        let at = 14 * row + 1 + 4 * board;
        let column = 1 + 4 * board;
        assert(at / 14 == row && at % 14 == column);
        assert((at + 1) / 14 == row && (at + 1) % 14 == column + 1);
        assert((at + 2) / 14 == row && (at + 2) % 14 == column + 2);
        assert((at + 3) / 14 == row && (at + 3) % 14 == column + 3);
        assert(column / 4 == board && column % 4 == 1);
        assert((column + 1) / 4 == board && (column + 1) % 4 == 2);
        assert((column + 2) / 4 == board && (column + 2) % 4 == 3);
        assert((column + 3) % 4 == 0);
    }

    /// The rendered board is a border line and then the three bands.
    pub proof fn lemma_rendering_bands(self)
        ensures
            self.rendering() == Self::border() + self.band(0) + self.band(3) + self.band(6),
    {
        reveal(BoardState::band);
        let text = Self::border() + self.band(0) + self.band(3) + self.band(6);
        assert(text.len() == 182);
        assert forall|i: int| 0 <= i < 182 implies self.rendering()[i] == text[i] by {
            let row = i / 14;
            let column = i % 14;
            assert(i == 14 * row + column && 0 <= row < 13 && 0 <= column < 14);
            if i < 14 {
                assert(row == 0);
                assert(text[i] == Self::border()[i]);
            } else if i < 70 {
                let k = i - 14;
                assert(text[i] == self.band(0)[k]);
                assert(k / 14 == row - 1 && k % 14 == column);
                assert(1 <= row <= 4);
            } else if i < 126 {
                let k = i - 70;
                assert(text[i] == self.band(3)[k]);
                assert(k / 14 == row - 5 && k % 14 == column);
                assert(5 <= row <= 8);
            } else {
                let k = i - 126;
                assert(text[i] == self.band(6)[k]);
                assert(k / 14 == row - 9 && k % 14 == column);
                assert(9 <= row <= 12);
            }
        }
        assert(self.rendering() =~= text);
    }
}

} // verus!
