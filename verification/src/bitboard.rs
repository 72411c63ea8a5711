//! The bitboard: a 64-bit word read as the characteristic function of a set
//! of fields, bit i set exactly when the square with index i is in the set.
//!
//! Setters take only well-formed fields and treat `INVALID` as a no-op, so no
//! bit outside 0..63 can ever be touched; the bitwise operators lift to set
//! union, intersection, symmetric difference and complement over the 64
//! squares.

use vstd::prelude::*;

use crate::coords::Field;

verus! {

/// A 64-bit set of board fields.
#[derive(Clone, Copy, Debug, PartialEq, Eq, Structural)]
pub struct Bitboard {
    pub board: u64,
}

impl Default for Bitboard {
    /// The empty board: no bit set.
    fn default() -> (r: Self)
        ensures
            r.spec_word() == 0,
    {
        Bitboard { board: 0 }
    }
}

impl Bitboard {
    /// The raw 64-bit word behind the board.
    pub open spec fn spec_word(self) -> u64 {
        self.board
    }

    /// Whether bit `i` of the board is set; meaningful for `i < 64`.
    pub open spec fn spec_get(self, i: u64) -> bool {
        self.board & (1u64 << i) != 0
    }

    /// Whether a field is in the set: it is on the board and its bit is set.
    pub open spec fn spec_contains(self, field: Field) -> bool {
        field.spec_is_valid() && self.spec_get(field.spec_index() as u64)
    }

    /// The board with a field added; adding `INVALID` changes nothing.
    pub open spec fn spec_set(self, field: Field) -> Bitboard {
        if field.spec_is_valid() {
            Bitboard { board: self.board | (1u64 << field.spec_index() as u64) }
        } else {
            self
        }
    }

    /// The board with a field removed; removing `INVALID` changes nothing.
    pub open spec fn spec_unset(self, field: Field) -> Bitboard {
        if field.spec_is_valid() {
            Bitboard { board: self.board & !(1u64 << field.spec_index() as u64) }
        } else {
            self
        }
    }

    /// Creates a new bitboard copying `value` as the bits representation.
    pub fn new(value: u64) -> (r: Self)
        ensures
            r.spec_word() == value,
    {
        Bitboard { board: value }
    }

    /// Creates a bit mask with just one bit set (specified as the `index`).
    pub fn make_mask(index: u8) -> (r: u64)
        requires
            index < 64,
        ensures
            r == 1u64 << index as u64,
    {
        1u64 << index as u64
    }

    /// Sets the bit for the given field; an `INVALID` field is a no-op and
    /// no other bit is disturbed.
    pub fn set(&mut self, field: Field)
        requires
            field.wf(),
        ensures
            *final(self) == old(self).spec_set(field),
            forall|i: u64|
                i < 64 ==> (#[trigger] final(self).spec_get(i) <==> (old(self).spec_get(i) || (
                field.spec_is_valid() && i == field.spec_index()))),
    {
        match field {
            Field::OnBoard(index) => {
                self.board = self.board | Self::make_mask(index);
                proof {
                    let w = old(self).board;
                    let k = field.spec_index() as u64;
                    assert forall|i: u64| i < 64 implies ((w | (1u64 << k)) & (1u64 << i) != 0) == ((
                    w & (1u64 << i) != 0) || i == k) by {
                        assert(k < 64 ==> (((w | (1u64 << k)) & (1u64 << i) != 0) == ((w & (1u64
                            << i) != 0) || i == k))) by (bit_vector)
                            requires
                                i < 64,
                        ;
                    }
                }
            },
            Field::INVALID => {},
        }
    }

    /// Clears the bit for the given field; an `INVALID` field is a no-op and
    /// no other bit is disturbed.
    pub fn unset(&mut self, field: Field)
        requires
            field.wf(),
        ensures
            *final(self) == old(self).spec_unset(field),
            forall|i: u64|
                i < 64 ==> (#[trigger] final(self).spec_get(i) <==> (old(self).spec_get(i) && !(
                field.spec_is_valid() && i == field.spec_index()))),
    {
        match field {
            Field::OnBoard(index) => {
                self.board = self.board & !Self::make_mask(index);
                proof {
                    let w = old(self).board;
                    let k = field.spec_index() as u64;
                    assert forall|i: u64| i < 64 implies ((w & !(1u64 << k)) & (1u64 << i) != 0)
                        == ((w & (1u64 << i) != 0) && i != k) by {
                        assert(k < 64 ==> (((w & !(1u64 << k)) & (1u64 << i) != 0) == ((w & (1u64
                            << i) != 0) && i != k))) by (bit_vector)
                            requires
                                i < 64,
                        ;
                    }
                }
            },
            Field::INVALID => {},
        }
    }

    /// Checks if the bitboard has set the `field`.
    pub fn is_set(&self, field: Field) -> (r: bool)
        requires
            field.wf(),
        ensures
            r == self.spec_contains(field),
    {
        self.get(field)
    }

    /// Returns the value for the `field`: true exactly when the field is on
    /// the board and its bit is set.
    pub fn get(&self, field: Field) -> (r: bool)
        requires
            field.wf(),
        ensures
            r == self.spec_contains(field),
    {
        match field {
            Field::OnBoard(index) => 0 != (self.board & Self::make_mask(index)),
            Field::INVALID => false,
        }
    }

    /// Set union: each bit of the result is the disjunction of the operand
    /// bits at that position.
    pub fn bitor(self, rhs: Self) -> (r: Self)
        ensures
            r.spec_word() == self.spec_word() | rhs.spec_word(),
            forall|i: u64|
                i < 64 ==> (#[trigger] r.spec_get(i) <==> (self.spec_get(i) || rhs.spec_get(i))),
    {
        proof {
            let a = self.board;
            let b = rhs.board;
            assert forall|i: u64| i < 64 implies ((a | b) & (1u64 << i) != 0) == ((a & (1u64 << i)
                != 0) || (b & (1u64 << i) != 0)) by {
                assert(((a | b) & (1u64 << i) != 0) == ((a & (1u64 << i) != 0) || (b & (1u64 << i)
                    != 0))) by (bit_vector);
            }
        }
        Bitboard { board: self.board | rhs.board }
    }

    /// Set intersection: each bit of the result is the conjunction of the
    /// operand bits at that position.
    pub fn bitand(self, rhs: Self) -> (r: Self)
        ensures
            r.spec_word() == self.spec_word() & rhs.spec_word(),
            forall|i: u64|
                i < 64 ==> (#[trigger] r.spec_get(i) <==> (self.spec_get(i) && rhs.spec_get(i))),
    {
        proof {
            let a = self.board;
            let b = rhs.board;
            assert forall|i: u64| i < 64 implies ((a & b) & (1u64 << i) != 0) == ((a & (1u64 << i)
                != 0) && (b & (1u64 << i) != 0)) by {
                assert(((a & b) & (1u64 << i) != 0) == ((a & (1u64 << i) != 0) && (b & (1u64 << i)
                    != 0))) by (bit_vector);
            }
        }
        Bitboard { board: self.board & rhs.board }
    }

    /// Symmetric difference: each bit of the result is the exclusive or of
    /// the operand bits at that position.
    pub fn bitxor(self, rhs: Self) -> (r: Self)
        ensures
            r.spec_word() == self.spec_word() ^ rhs.spec_word(),
            forall|i: u64|
                i < 64 ==> (#[trigger] r.spec_get(i) <==> (self.spec_get(i) != rhs.spec_get(i))),
    {
        proof {
            let a = self.board;
            let b = rhs.board;
            assert forall|i: u64| i < 64 implies ((a ^ b) & (1u64 << i) != 0) == ((a & (1u64 << i)
                != 0) != (b & (1u64 << i) != 0)) by {
                assert(((a ^ b) & (1u64 << i) != 0) == ((a & (1u64 << i) != 0) != (b & (1u64 << i)
                    != 0))) by (bit_vector);
            }
        }
        Bitboard { board: self.board ^ rhs.board }
    }

    /// Complement over the universe of all 64 squares: each bit of the
    /// result is the negation of the operand bit at that position.
    pub fn not(self) -> (r: Self)
        ensures
            r.spec_word() == !self.spec_word(),
            forall|i: u64| i < 64 ==> (#[trigger] r.spec_get(i) <==> !self.spec_get(i)),
    {
        proof {
            let a = self.board;
            assert forall|i: u64| i < 64 implies (!a & (1u64 << i) != 0) == !(a & (1u64 << i) != 0)
                by {
                assert(i < 64 ==> ((!a & (1u64 << i) != 0) == !(a & (1u64 << i) != 0)))
                    by (bit_vector);
            }
        }
        Bitboard { board: !self.board }
    }

    /// In-place set union.
    pub fn bitor_assign(&mut self, rhs: Self)
        ensures
            *final(self) == old(self).bitor_spec(rhs),
    {
        self.board = self.board | rhs.board;
    }

    /// In-place set intersection.
    pub fn bitand_assign(&mut self, rhs: Self)
        ensures
            *final(self) == old(self).bitand_spec(rhs),
    {
        self.board = self.board & rhs.board;
    }

    /// In-place symmetric difference.
    pub fn bitxor_assign(&mut self, rhs: Self)
        ensures
            *final(self) == old(self).bitxor_spec(rhs),
    {
        self.board = self.board ^ rhs.board;
    }

    /// The union of two boards, as a value.
    pub open spec fn bitor_spec(self, rhs: Self) -> Bitboard {
        Bitboard { board: self.board | rhs.board }
    }

    /// The intersection of two boards, as a value.
    pub open spec fn bitand_spec(self, rhs: Self) -> Bitboard {
        Bitboard { board: self.board & rhs.board }
    }

    /// The symmetric difference of two boards, as a value.
    pub open spec fn bitxor_spec(self, rhs: Self) -> Bitboard {
        Bitboard { board: self.board ^ rhs.board }
    }
}

/// Membership after mutation: setting a valid field makes its bit readable as
/// true, and unsetting it afterwards makes it false again, whatever the board
/// held before.
pub proof fn lemma_set_unset_get(b: Bitboard, f: Field)
    requires
        f.wf(),
        f.spec_is_valid(),
    ensures
        b.spec_set(f).spec_contains(f),
        !b.spec_unset(f).spec_contains(f),
        !b.spec_set(f).spec_unset(f).spec_contains(f),
{
    let w = b.spec_word();
    let k = f.spec_index() as u64;
    assert(k < 64 ==> ((w | (1u64 << k)) & (1u64 << k) != 0)) by (bit_vector);
    assert(k < 64 ==> ((w & !(1u64 << k)) & (1u64 << k) == 0)) by (bit_vector);
    assert(k < 64 ==> (((w | (1u64 << k)) & !(1u64 << k)) & (1u64 << k) == 0)) by (bit_vector);
}

} // verus!
