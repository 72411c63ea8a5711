//! Directions and field movement.
//!
//! A [`Direction`] is one of the 25 compass points of a 5x5 grid centred on
//! `H` (here); each reduces to a [`MoveVector`], a signed (file, rank)
//! displacement. Moving a [`Field`] by a direction is total: the result is
//! either the target square or `INVALID` when the displacement leaves the
//! board.

use vstd::prelude::*;

use crate::coords::Field;
use crate::coords::File;
use crate::coords::Rank;

verus! {

/// A signed displacement (file delta, rank delta) from one field to another.
#[derive(Clone, Copy, Debug, PartialEq, Eq, Structural)]
pub struct MoveVector(pub i8, pub i8);

impl MoveVector {
    /// Componentwise addition of two displacements.
    pub fn add(self, rhs: Self) -> (r: Self)
        requires
            i8::MIN <= self.0 + rhs.0 <= i8::MAX,
            i8::MIN <= self.1 + rhs.1 <= i8::MAX,
        ensures
            r.0 == self.0 + rhs.0,
            r.1 == self.1 + rhs.1,
    {
        MoveVector(self.0 + rhs.0, self.1 + rhs.1)
    }
}

/// A compass direction on the 5x5 grid of supported moves.
///
/// `N`, `S`, `E`, `W` are the geographic directions (north is the positive
/// rank axis, east the positive file axis); a doubled letter means a two-step
/// offset on that axis, and `H` is "here", the identity displacement.
///
/// The outer ring off the two axes holds the knight jumps (`NNW`, `NNE`,
/// `NWW`, `NEE`, `SSW`, `SSE`, `SWW`, `SEE`); the inner ring holds the king
/// steps; `N`/`S` and `NN`/`SS` serve pawn pushes.
#[derive(Clone, Copy, Debug, PartialEq, Eq, Structural)]
pub enum Direction {
    NNWW, NNW, NN, NNE, NNEE,
    NWW,  NW,  N,  NE,  NEE,
    WW,   W,   H,  E,   EE,
    SWW,  SW,  S,  SE,  SEE,
    SSWW, SSW, SS, SSE, SSEE,
}

impl Direction {
    /// The file (east-west) component of the direction, in -2..=2.
    pub open spec fn spec_df(self) -> int {
        match self {
            Direction::NNWW => -2,
            Direction::NNW => -1,
            Direction::NN => 0,
            Direction::NNE => 1,
            Direction::NNEE => 2,
            Direction::NWW => -2,
            Direction::NW => -1,
            Direction::N => 0,
            Direction::NE => 1,
            Direction::NEE => 2,
            Direction::WW => -2,
            Direction::W => -1,
            Direction::H => 0,
            Direction::E => 1,
            Direction::EE => 2,
            Direction::SWW => -2,
            Direction::SW => -1,
            Direction::S => 0,
            Direction::SE => 1,
            Direction::SEE => 2,
            Direction::SSWW => -2,
            Direction::SSW => -1,
            Direction::SS => 0,
            Direction::SSE => 1,
            Direction::SSEE => 2,
        }
    }

    /// The rank (north-south) component of the direction, in -2..=2.
    pub open spec fn spec_dr(self) -> int {
        match self {
            Direction::NNWW => 2,
            Direction::NNW => 2,
            Direction::NN => 2,
            Direction::NNE => 2,
            Direction::NNEE => 2,
            Direction::NWW => 1,
            Direction::NW => 1,
            Direction::N => 1,
            Direction::NE => 1,
            Direction::NEE => 1,
            Direction::WW => 0,
            Direction::W => 0,
            Direction::H => 0,
            Direction::E => 0,
            Direction::EE => 0,
            Direction::SWW => -1,
            Direction::SW => -1,
            Direction::S => -1,
            Direction::SE => -1,
            Direction::SEE => -1,
            Direction::SSWW => -2,
            Direction::SSW => -2,
            Direction::SS => -2,
            Direction::SSE => -2,
            Direction::SSEE => -2,
        }
    }
}

impl From<Direction> for MoveVector {
    /// The displacement a direction stands for, per the 5x5 compass table.
    fn from(value: Direction) -> (r: Self) {
        match value {
            Direction::NNWW => MoveVector(-2,  2),
            Direction::NNW  => MoveVector(-1,  2),
            Direction::NN   => MoveVector( 0,  2),
            Direction::NNE  => MoveVector( 1,  2),
            Direction::NNEE => MoveVector( 2,  2),
            Direction::NWW  => MoveVector(-2,  1),
            Direction::NW   => MoveVector(-1,  1),
            Direction::N    => MoveVector( 0,  1),
            Direction::NE   => MoveVector( 1,  1),
            Direction::NEE  => MoveVector( 2,  1),
            Direction::WW   => MoveVector(-2,  0),
            Direction::W    => MoveVector(-1,  0),
            Direction::H    => MoveVector( 0,  0),
            Direction::E    => MoveVector( 1,  0),
            Direction::EE   => MoveVector( 2,  0),
            Direction::SWW  => MoveVector(-2, -1),
            Direction::SW   => MoveVector(-1, -1),
            Direction::S    => MoveVector( 0, -1),
            Direction::SE   => MoveVector( 1, -1),
            Direction::SEE  => MoveVector( 2, -1),
            Direction::SSWW => MoveVector(-2, -2),
            Direction::SSW  => MoveVector(-1, -2),
            Direction::SS   => MoveVector( 0, -2),
            Direction::SSE  => MoveVector( 1, -2),
            Direction::SSEE => MoveVector( 2, -2),
        }
    }
}

impl vstd::std_specs::convert::FromSpecImpl<Direction> for MoveVector {
    open spec fn obeys_from_spec() -> bool {
        true
    }

    open spec fn from_spec(d: Direction) -> Self {
        MoveVector(d.spec_df() as i8, d.spec_dr() as i8)
    }
}

impl Field {
    /// The field reached by displacing this one by (df, dr): decode to
    /// (file, rank), add the offsets, reconstruct. Off the board, or from
    /// `INVALID`, the result is `INVALID`.
    pub open spec fn spec_shift(self, df: int, dr: int) -> Field {
        if !self.spec_is_valid() {
            Field::INVALID
        } else {
            let nf = self.spec_index() as int % 8 + df;
            let nr = self.spec_index() as int / 8 + dr;
            if 0 <= nf <= 7 && 0 <= nr <= 7 {
                Field::OnBoard((nf + 8 * nr) as u8)
            } else {
                Field::INVALID
            }
        }
    }

    /// The field reached by moving one step in a direction.
    pub open spec fn spec_mv(self, direction: Direction) -> Field {
        self.spec_shift(direction.spec_df(), direction.spec_dr())
    }

    /// Moves the field by a direction's displacement; any step off the board
    /// yields `INVALID`, and `INVALID` absorbs every move.
    pub fn add(self, rhs: Direction) -> (r: Field)
        ensures
            r == self.spec_mv(rhs),
            r.wf(),
    {
        match self {
            Field::INVALID => Field::INVALID,
            Field::OnBoard(i) => {
                let mv = MoveVector::from(rhs);
                let file: i8 = (i % 8) as i8 + mv.0;
                let rank: i8 = (i / 8) as i8 + mv.1;
                Field::new(File::from(file), Rank::from(rank))
            },
        }
    }

    /// Finds a new field moving in the given `direction` from the current
    /// field.
    pub fn mv(self, direction: Direction) -> (r: Field)
        ensures
            r == self.spec_mv(direction),
            r.wf(),
    {
        self.add(direction)
    }
}

/// Moving by `H` (here) is the identity on every valid field.
pub proof fn lemma_mv_here(f: Field)
    requires
        f.wf(),
        f.spec_is_valid(),
    ensures
        f.spec_mv(Direction::H) == f,
{
}

/// A move from a valid field lands on the board exactly when the displaced
/// file and rank both stay within 0..7; in particular, a move that returns
/// `INVALID` left that range on one of the two axes.
pub proof fn lemma_mv_on_board_iff(f: Field, d: Direction)
    requires
        f.wf(),
        f.spec_is_valid(),
    ensures
        f.spec_mv(d).spec_is_valid() <==> (0 <= f.spec_index() as int % 8 + d.spec_df() <= 7
            && 0 <= f.spec_index() as int / 8 + d.spec_dr() <= 7),
{
}

/// Composition of moves: when the intermediate and final squares are both on
/// the board, moving by `d1` and then by `d2` equals one move by the
/// componentwise sum of their move vectors.
pub proof fn lemma_mv_compose(f: Field, d1: Direction, d2: Direction)
    requires
        f.wf(),
        f.spec_is_valid(),
        f.spec_mv(d1).spec_is_valid(),
        f.spec_mv(d1).spec_mv(d2).spec_is_valid(),
    ensures
        f.spec_mv(d1).spec_mv(d2) == f.spec_shift(
            d1.spec_df() + d2.spec_df(),
            d1.spec_dr() + d2.spec_dr(),
        ),
{
}

} // verus!
