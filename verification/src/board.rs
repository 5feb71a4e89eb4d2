//! A placeholder bitboard: one bit per square of an 8x8 board.

use vstd::prelude::*;

verus! {

/// A 64-square board held as one bit per square, square `i` at bit `i`.
pub struct BitBoard {
    board: u64,
}

impl View for BitBoard {
    type V = u64;

    closed spec fn view(&self) -> u64 {
        self.board
    }
}

impl Default for BitBoard {
    /// An empty board: no square occupied.
    fn default() -> (r: Self)
        ensures
            r@ == 0u64,
    {
        BitBoard { board: 0 }
    }
}

impl BitBoard {
    /// Occupy the square at the given index by setting its bit.
    pub fn make_move(&mut self, board_idx: u16)
        requires
            board_idx < 64,
        ensures
            final(self)@ == (old(self)@ | (1u64 << board_idx)),
    {
        self.board = self.board | (1u64 << board_idx);
    }

    /// The bit standing on the given square: nonzero exactly when occupied.
    pub fn square_bit(&self, square_idx: u16) -> (r: u64)
        requires
            square_idx < 64,
        ensures
            r == (self@ & (1u64 << square_idx)),
    {
        self.board & (1u64 << square_idx)
    }
}

} // verus!
