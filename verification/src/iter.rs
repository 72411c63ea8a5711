//! Enumeration of a bitboard's fields.
//!
//! [`SetFields`] walks the square indices 0..63 in ascending order and yields
//! the field of every set bit; [`UnsetFields`] yields the complement. Both
//! read a snapshot of the board and terminate after index 63. The collecting
//! methods on [`Bitboard`] gather a whole walk into a `Vec`.

use vstd::prelude::*;

use crate::bitboard::Bitboard;
use crate::coords::Field;

verus! {

/// A cursor over the fields of a bitboard whose bits are set.
pub struct SetFields {
    board: Bitboard,
    current: u8,
}

/// A cursor over the fields of a bitboard whose bits are clear.
pub struct UnsetFields {
    board: Bitboard,
    current: u8,
}

impl SetFields {
    /// The board the cursor walks.
    pub closed spec fn spec_board(self) -> Bitboard {
        self.board
    }

    /// The next index the cursor will look at.
    pub closed spec fn spec_current(self) -> u8 {
        self.current
    }

    /// Well-formedness: the cursor never runs past the board's 64 squares.
    pub closed spec fn wf(self) -> bool {
        self.current <= 64
    }

    /// Starts a walk over the set fields of `board`, from square index 0.
    pub fn new(board: &Bitboard) -> (r: SetFields)
        ensures
            r.spec_board() == *board,
            r.spec_current() == 0,
            r.wf(),
    {
        SetFields { board: *board, current: 0 }
    }

    /// Yields the field of the first set bit at or after the cursor, and
    /// advances past it; `None` when no bit at or after the cursor is set,
    /// which ends the walk.
    pub fn next(&mut self) -> (r: Option<Field>)
        requires
            old(self).wf(),
        ensures
            final(self).wf(),
            final(self).spec_board() == old(self).spec_board(),
            match r {
                Some(f) => f.wf() && f.spec_is_valid() && old(self).spec_current()
                    <= f.spec_index() < 64 && old(self).spec_board().spec_get(
                    f.spec_index() as u64,
                ) && final(self).spec_current() == f.spec_index() + 1 && (forall|j: u64|
                    old(self).spec_current() <= j < f.spec_index() ==> !old(
                        self,
                    ).spec_board().spec_get(j)),
                None => final(self).spec_current() == 64 && (forall|j: u64|
                    old(self).spec_current() <= j < 64 ==> !old(self).spec_board().spec_get(j)),
            },
    {
        loop
            invariant
                self.board == old(self).spec_board(),
                old(self).spec_current() <= self.current <= 64,
                forall|j: u64|
                    old(self).spec_current() <= j < self.current ==> !old(
                        self,
                    ).spec_board().spec_get(j),
            decreases 64 - self.current,
        {
            if self.current >= 64 {
                return None;
            }
            let field = Field::from(self.current);
            self.current = self.current + 1;
            if self.board.get(field) {
                return Some(field);
            }
        }
    }
}

impl UnsetFields {
    /// The board the cursor walks.
    pub closed spec fn spec_board(self) -> Bitboard {
        self.board
    }

    /// The next index the cursor will look at.
    pub closed spec fn spec_current(self) -> u8 {
        self.current
    }

    /// Well-formedness: the cursor never runs past the board's 64 squares.
    pub closed spec fn wf(self) -> bool {
        self.current <= 64
    }

    /// Starts a walk over the unset fields of `board`, from square index 0.
    pub fn new(board: &Bitboard) -> (r: UnsetFields)
        ensures
            r.spec_board() == *board,
            r.spec_current() == 0,
            r.wf(),
    {
        UnsetFields { board: *board, current: 0 }
    }

    /// Yields the field of the first clear bit at or after the cursor, and
    /// advances past it; `None` when every bit at or after the cursor is
    /// set, which ends the walk.
    pub fn next(&mut self) -> (r: Option<Field>)
        requires
            old(self).wf(),
        ensures
            final(self).wf(),
            final(self).spec_board() == old(self).spec_board(),
            match r {
                Some(f) => f.wf() && f.spec_is_valid() && old(self).spec_current()
                    <= f.spec_index() < 64 && !old(self).spec_board().spec_get(
                    f.spec_index() as u64,
                ) && final(self).spec_current() == f.spec_index() + 1 && (forall|j: u64|
                    old(self).spec_current() <= j < f.spec_index() ==> old(
                        self,
                    ).spec_board().spec_get(j)),
                None => final(self).spec_current() == 64 && (forall|j: u64|
                    old(self).spec_current() <= j < 64 ==> old(self).spec_board().spec_get(j)),
            },
    {
        loop
            invariant
                self.board == old(self).spec_board(),
                old(self).spec_current() <= self.current <= 64,
                forall|j: u64|
                    old(self).spec_current() <= j < self.current ==> old(
                        self,
                    ).spec_board().spec_get(j),
            decreases 64 - self.current,
        {
            if self.current >= 64 {
                return None;
            }
            let field = Field::from(self.current);
            self.current = self.current + 1;
            if !self.board.get(field) {
                return Some(field);
            }
        }
    }
}

impl Bitboard {
    /// Starts a walk over the fields whose bits are set.
    pub fn set_fields_iter(&self) -> (r: SetFields)
        ensures
            r.spec_board() == *self,
            r.spec_current() == 0,
            r.wf(),
    {
        SetFields::new(self)
    }

    /// Starts a walk over the fields whose bits are clear.
    pub fn unset_fields_iter(&self) -> (r: UnsetFields)
        ensures
            r.spec_board() == *self,
            r.spec_current() == 0,
            r.wf(),
    {
        UnsetFields::new(self)
    }

    /// Collects the whole walk of [`SetFields`]: exactly the fields whose
    /// bits are set, each once, in ascending index order.
    pub fn set_fields(&self) -> (r: Vec<Field>)
        ensures
            forall|k: int|
                0 <= k < r@.len() ==> (#[trigger] r@[k]).wf() && r@[k].spec_is_valid()
                    && self.spec_get(r@[k].spec_index() as u64),
            forall|k1: int, k2: int|
                0 <= k1 < k2 < r@.len() ==> r@[k1].spec_index() < r@[k2].spec_index(),
            forall|j: u64|
                j < 64 && self.spec_get(j) ==> exists|k: int|
                    0 <= k < r@.len() && (#[trigger] r@[k]).spec_index() == j,
    {
        let mut it = self.set_fields_iter();
        let mut out: Vec<Field> = Vec::new();
        loop
            invariant
                it.wf(),
                it.spec_board() == *self,
                forall|k: int|
                    0 <= k < out@.len() ==> (#[trigger] out@[k]).wf() && out@[k].spec_is_valid()
                        && self.spec_get(out@[k].spec_index() as u64) && out@[k].spec_index()
                        < it.spec_current(),
                forall|k1: int, k2: int|
                    0 <= k1 < k2 < out@.len() ==> out@[k1].spec_index() < out@[k2].spec_index(),
                forall|j: u64|
                    j < it.spec_current() && self.spec_get(j) ==> exists|k: int|
                        0 <= k < out@.len() && (#[trigger] out@[k]).spec_index() == j,
            decreases 64 - it.spec_current(),
        {
            let ghost prev = it;
            let ghost prev_out = out@;
            match it.next() {
                Some(field) => {
                    out.push(field);
                    proof {
                        assert forall|j: u64|
                            j < it.spec_current() && self.spec_get(j) implies exists|k: int|
                            0 <= k < out@.len() && (#[trigger] out@[k]).spec_index() == j by {
                            if j == field.spec_index() {
                                assert((#[trigger] out@[out@.len() - 1]).spec_index() == j);
                            } else if j < prev.spec_current() {
                                let k = choose|k: int|
                                    0 <= k < prev_out.len() && (#[trigger] prev_out[k]).spec_index()
                                        == j;
                                assert((#[trigger] out@[k]).spec_index() == j);
                            }
                        }
                    }
                },
                None => { return out; },
            }
        }
    }

    /// Collects the whole walk of [`UnsetFields`]: exactly the fields whose
    /// bits are clear, each once, in ascending index order.
    pub fn unset_fields(&self) -> (r: Vec<Field>)
        ensures
            forall|k: int|
                0 <= k < r@.len() ==> (#[trigger] r@[k]).wf() && r@[k].spec_is_valid()
                    && !self.spec_get(r@[k].spec_index() as u64),
            forall|k1: int, k2: int|
                0 <= k1 < k2 < r@.len() ==> r@[k1].spec_index() < r@[k2].spec_index(),
            forall|j: u64|
                j < 64 && !self.spec_get(j) ==> exists|k: int|
                    0 <= k < r@.len() && (#[trigger] r@[k]).spec_index() == j,
    {
        let mut it = self.unset_fields_iter();
        let mut out: Vec<Field> = Vec::new();
        loop
            invariant
                it.wf(),
                it.spec_board() == *self,
                forall|k: int|
                    0 <= k < out@.len() ==> (#[trigger] out@[k]).wf() && out@[k].spec_is_valid()
                        && !self.spec_get(out@[k].spec_index() as u64) && out@[k].spec_index()
                        < it.spec_current(),
                forall|k1: int, k2: int|
                    0 <= k1 < k2 < out@.len() ==> out@[k1].spec_index() < out@[k2].spec_index(),
                forall|j: u64|
                    j < it.spec_current() && !self.spec_get(j) ==> exists|k: int|
                        0 <= k < out@.len() && (#[trigger] out@[k]).spec_index() == j,
            decreases 64 - it.spec_current(),
        {
            let ghost prev = it;
            let ghost prev_out = out@;
            match it.next() {
                Some(field) => {
                    out.push(field);
                    proof {
                        assert forall|j: u64|
                            j < it.spec_current() && !self.spec_get(j) implies exists|k: int|
                            0 <= k < out@.len() && (#[trigger] out@[k]).spec_index() == j by {
                            if j == field.spec_index() {
                                assert((#[trigger] out@[out@.len() - 1]).spec_index() == j);
                            } else if j < prev.spec_current() {
                                let k = choose|k: int|
                                    0 <= k < prev_out.len() && (#[trigger] prev_out[k]).spec_index()
                                        == j;
                                assert((#[trigger] out@[k]).spec_index() == j);
                            }
                        }
                    }
                },
                None => { return out; },
            }
        }
    }
}

/// The two walks partition the board: sequences with the membership
/// conditions of [`Bitboard::set_fields`] and [`Bitboard::unset_fields`]
/// together cover every square index below 64, and no index lies in both.
pub proof fn lemma_walks_partition(b: Bitboard, s: Seq<Field>, u: Seq<Field>, j: u64)
    requires
        j < 64,
        b.spec_get(j) <==> exists|k: int|
            0 <= k < s.len() && (#[trigger] s[k]).spec_index() == j,
        !b.spec_get(j) <==> exists|k: int|
            0 <= k < u.len() && (#[trigger] u[k]).spec_index() == j,
    ensures
        (exists|k: int| 0 <= k < s.len() && (#[trigger] s[k]).spec_index() == j) != (exists|k: int|
            0 <= k < u.len() && (#[trigger] u[k]).spec_index() == j),
{
}

} // verus!
