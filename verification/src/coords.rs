//! Board coordinates: files (columns), ranks (rows), fields (squares) and the
//! decoded `Point` view.
//!
//! Every coordinate type carries an `INVALID` sentinel so that construction
//! from an out-of-range number is total: it never panics and never needs an
//! `Option`, which keeps the operator algebra on fields composable.

use vstd::prelude::*;

verus! {

/// A board column, named A..H, with numeric order 0..7.
///
/// `INVALID` is the total fallback for construction from a value above 7.
#[derive(Clone, Copy, Debug, PartialEq, Eq, Structural)]
pub enum File {
    FileA,
    FileB,
    FileC,
    FileD,
    FileE,
    FileF,
    FileG,
    FileH,
    INVALID,
}

impl File {
    /// The numeric value of a variant: 0..7 for the named files, `u8::MAX`
    /// for `INVALID`.
    pub open spec fn spec_index(self) -> u8 {
        match self {
            File::FileA => 0,
            File::FileB => 1,
            File::FileC => 2,
            File::FileD => 3,
            File::FileE => 4,
            File::FileF => 5,
            File::FileG => 6,
            File::FileH => 7,
            File::INVALID => u8::MAX,
        }
    }

    /// A file is valid exactly when it is one of the eight named columns.
    pub open spec fn spec_is_valid(self) -> bool {
        self != File::INVALID
    }

    /// The file a number converts to: the named variant for 0..7, otherwise
    /// `INVALID`.
    pub open spec fn spec_from_u8(v: u8) -> File {
        if v == 0 {
            File::FileA
        } else if v == 1 {
            File::FileB
        } else if v == 2 {
            File::FileC
        } else if v == 3 {
            File::FileD
        } else if v == 4 {
            File::FileE
        } else if v == 5 {
            File::FileF
        } else if v == 6 {
            File::FileG
        } else if v == 7 {
            File::FileH
        } else {
            File::INVALID
        }
    }

    /// Returns the numeric value of the file.
    pub fn index(self) -> (r: u8)
        ensures
            r == self.spec_index(),
    {
        match self {
            File::FileA => 0,
            File::FileB => 1,
            File::FileC => 2,
            File::FileD => 3,
            File::FileE => 4,
            File::FileF => 5,
            File::FileG => 6,
            File::FileH => 7,
            File::INVALID => u8::MAX,
        }
    }

    /// Tells a named column apart from the `INVALID` sentinel.
    #[verifier::when_used_as_spec(spec_is_valid)]
    pub fn is_valid(self) -> (r: bool)
        ensures
            r == self.spec_is_valid(),
    {
        match self {
            File::INVALID => false,
            _ => true,
        }
    }
}

impl From<u8> for File {
    /// Total construction from a byte: 0..=7 yields the named file, anything
    /// larger collapses to `INVALID`.
    fn from(value: u8) -> (r: Self) {
        if value == 0 {
            File::FileA
        } else if value == 1 {
            File::FileB
        } else if value == 2 {
            File::FileC
        } else if value == 3 {
            File::FileD
        } else if value == 4 {
            File::FileE
        } else if value == 5 {
            File::FileF
        } else if value == 6 {
            File::FileG
        } else if value == 7 {
            File::FileH
        } else {
            File::INVALID
        }
    }
}

impl vstd::std_specs::convert::FromSpecImpl<u8> for File {
    open spec fn obeys_from_spec() -> bool {
        true
    }

    open spec fn from_spec(v: u8) -> Self {
        File::spec_from_u8(v)
    }
}

impl From<i8> for File {
    /// Construction from a signed byte reinterprets the bits: a negative
    /// value becomes a large unsigned one and therefore collapses to
    /// `INVALID`.
    fn from(value: i8) -> (r: Self) {
        if value < 0 {
            File::INVALID
        } else {
            File::from(value as u8)
        }
    }
}

impl vstd::std_specs::convert::FromSpecImpl<i8> for File {
    open spec fn obeys_from_spec() -> bool {
        true
    }

    open spec fn from_spec(v: i8) -> Self {
        if 0 <= v <= 7 {
            File::spec_from_u8(v as u8)
        } else {
            File::INVALID
        }
    }
}

/// Constructing a file from a number keeps the number exactly when it is in
/// range, and yields `INVALID` exactly when it is not.
pub proof fn lemma_file_from_u8(v: u8)
    ensures
        File::spec_from_u8(v).spec_is_valid() <==> v <= 7,
        v <= 7 ==> File::spec_from_u8(v).spec_index() == v,
        v > 7 ==> File::spec_from_u8(v) == File::INVALID,
{
}

/// A board row, named 1..8, with numeric order 0..7.
///
/// `INVALID` is the total fallback for construction from a value above 7.
#[derive(Clone, Copy, Debug, PartialEq, Eq, Structural)]
pub enum Rank {
    Rank1,
    Rank2,
    Rank3,
    Rank4,
    Rank5,
    Rank6,
    Rank7,
    Rank8,
    INVALID,
}

impl Rank {
    /// The numeric value of a variant: 0..7 for the named ranks, `u8::MAX`
    /// for `INVALID`.
    pub open spec fn spec_index(self) -> u8 {
        match self {
            Rank::Rank1 => 0,
            Rank::Rank2 => 1,
            Rank::Rank3 => 2,
            Rank::Rank4 => 3,
            Rank::Rank5 => 4,
            Rank::Rank6 => 5,
            Rank::Rank7 => 6,
            Rank::Rank8 => 7,
            Rank::INVALID => u8::MAX,
        }
    }

    /// A rank is valid exactly when it is one of the eight named rows.
    pub open spec fn spec_is_valid(self) -> bool {
        self != Rank::INVALID
    }

    /// The rank a number converts to: the named variant for 0..7, otherwise
    /// `INVALID`.
    pub open spec fn spec_from_u8(v: u8) -> Rank {
        if v == 0 {
            Rank::Rank1
        } else if v == 1 {
            Rank::Rank2
        } else if v == 2 {
            Rank::Rank3
        } else if v == 3 {
            Rank::Rank4
        } else if v == 4 {
            Rank::Rank5
        } else if v == 5 {
            Rank::Rank6
        } else if v == 6 {
            Rank::Rank7
        } else if v == 7 {
            Rank::Rank8
        } else {
            Rank::INVALID
        }
    }

    /// Returns the numeric value of the rank.
    pub fn index(self) -> (r: u8)
        ensures
            r == self.spec_index(),
    {
        match self {
            Rank::Rank1 => 0,
            Rank::Rank2 => 1,
            Rank::Rank3 => 2,
            Rank::Rank4 => 3,
            Rank::Rank5 => 4,
            Rank::Rank6 => 5,
            Rank::Rank7 => 6,
            Rank::Rank8 => 7,
            Rank::INVALID => u8::MAX,
        }
    }

    /// Tells a named row apart from the `INVALID` sentinel.
    #[verifier::when_used_as_spec(spec_is_valid)]
    pub fn is_valid(self) -> (r: bool)
        ensures
            r == self.spec_is_valid(),
    {
        match self {
            Rank::INVALID => false,
            _ => true,
        }
    }
}

impl From<u8> for Rank {
    /// Total construction from a byte: 0..=7 yields the named rank, anything
    /// larger collapses to `INVALID`.
    fn from(value: u8) -> (r: Self) {
        if value == 0 {
            Rank::Rank1
        } else if value == 1 {
            Rank::Rank2
        } else if value == 2 {
            Rank::Rank3
        } else if value == 3 {
            Rank::Rank4
        } else if value == 4 {
            Rank::Rank5
        } else if value == 5 {
            Rank::Rank6
        } else if value == 6 {
            Rank::Rank7
        } else if value == 7 {
            Rank::Rank8
        } else {
            Rank::INVALID
        }
    }
}

impl vstd::std_specs::convert::FromSpecImpl<u8> for Rank {
    open spec fn obeys_from_spec() -> bool {
        true
    }

    open spec fn from_spec(v: u8) -> Self {
        Rank::spec_from_u8(v)
    }
}

impl From<i8> for Rank {
    /// Construction from a signed byte reinterprets the bits: a negative
    /// value becomes a large unsigned one and therefore collapses to
    /// `INVALID`.
    fn from(value: i8) -> (r: Self) {
        if value < 0 {
            Rank::INVALID
        } else {
            Rank::from(value as u8)
        }
    }
}

impl vstd::std_specs::convert::FromSpecImpl<i8> for Rank {
    open spec fn obeys_from_spec() -> bool {
        true
    }

    open spec fn from_spec(v: i8) -> Self {
        if 0 <= v <= 7 {
            Rank::spec_from_u8(v as u8)
        } else {
            Rank::INVALID
        }
    }
}

/// Constructing a rank from a number keeps the number exactly when it is in
/// range, and yields `INVALID` exactly when it is not.
pub proof fn lemma_rank_from_u8(v: u8)
    ensures
        Rank::spec_from_u8(v).spec_is_valid() <==> v <= 7,
        v <= 7 ==> Rank::spec_from_u8(v).spec_index() == v,
        v > 7 ==> Rank::spec_from_u8(v) == Rank::INVALID,
{
}

/// A field's coordinates as plain numbers, file and rank each in 0..7.
#[derive(Clone, Copy, Debug, PartialEq, Eq, Structural)]
pub struct Point {
    pub file: u8,
    pub rank: u8,
}

/// A board square: one of the 64 positions, indexed 0..63 in row-major order
/// with the file varying fastest (A1 = 0, B1 = 1, ..., H8 = 63), or the
/// `INVALID` sentinel.
///
/// The well-formedness invariant [`Field::wf`] bounds an on-board index by 63;
/// every constructor of this crate establishes it.
#[derive(Clone, Copy, Debug, PartialEq, Eq, Structural)]
pub enum Field {
    OnBoard(u8),
    INVALID,
}

impl Field {
    /// Well-formedness: an on-board field's index fits the 8x8 board.
    pub open spec fn wf(self) -> bool {
        match self {
            Field::OnBoard(i) => i <= 63,
            Field::INVALID => true,
        }
    }

    /// The numeric value of the field: its square index for an on-board
    /// field, `u8::MAX` for `INVALID`.
    pub open spec fn spec_index(self) -> u8 {
        match self {
            Field::OnBoard(i) => i,
            Field::INVALID => u8::MAX,
        }
    }

    /// A field is valid exactly when it lies on the board.
    pub open spec fn spec_is_valid(self) -> bool {
        self is OnBoard
    }

    /// The field a number converts to: the square with that index for 0..63,
    /// otherwise `INVALID`.
    pub open spec fn spec_from_u8(v: u8) -> Field {
        if v <= 63 {
            Field::OnBoard(v)
        } else {
            Field::INVALID
        }
    }

    /// The field built from a file and a rank: `file + 8 * rank` when both
    /// are valid, otherwise `INVALID`.
    pub open spec fn spec_new(file: File, rank: Rank) -> Field {
        if file.spec_is_valid() && rank.spec_is_valid() {
            Field::OnBoard((file.spec_index() + 8 * rank.spec_index()) as u8)
        } else {
            Field::INVALID
        }
    }

    /// The column of the field: index modulo 8, or `INVALID` off the board.
    pub open spec fn spec_file(self) -> File {
        match self {
            Field::OnBoard(i) => File::spec_from_u8((i % 8) as u8),
            Field::INVALID => File::INVALID,
        }
    }

    /// The row of the field: index divided by 8, or `INVALID` off the board.
    pub open spec fn spec_rank(self) -> Rank {
        match self {
            Field::OnBoard(i) => Rank::spec_from_u8((i / 8) as u8),
            Field::INVALID => Rank::INVALID,
        }
    }

    /// Returns the numeric value of the field.
    pub fn index(self) -> (r: u8)
        ensures
            r == self.spec_index(),
    {
        match self {
            Field::OnBoard(i) => i,
            Field::INVALID => u8::MAX,
        }
    }

    /// Tells an on-board square apart from the `INVALID` sentinel.
    #[verifier::when_used_as_spec(spec_is_valid)]
    pub fn is_valid(self) -> (r: bool)
        ensures
            r == self.spec_is_valid(),
    {
        match self {
            Field::OnBoard(_) => true,
            Field::INVALID => false,
        }
    }

    /// Creates a field from a file and a rank; `INVALID` in either place
    /// gives `INVALID`.
    pub fn new(file: File, rank: Rank) -> (r: Field)
        ensures
            r == Field::spec_new(file, rank),
            r.wf(),
    {
        if !file.is_valid() {
            return Field::INVALID;
        }
        if !rank.is_valid() {
            return Field::INVALID;
        }
        Field::OnBoard(file.index() + 8 * rank.index())
    }

    /// Calculates the file (column) of the field.
    pub fn file(self) -> (r: File)
        ensures
            r == self.spec_file(),
    {
        match self {
            Field::OnBoard(i) => File::from(i % 8),
            Field::INVALID => File::INVALID,
        }
    }

    /// Calculates the rank (row) of the field.
    pub fn rank(self) -> (r: Rank)
        ensures
            r == self.spec_rank(),
    {
        match self {
            Field::OnBoard(i) => Rank::from(i / 8),
            Field::INVALID => Rank::INVALID,
        }
    }

    /// Decodes an on-board field into its plain (file, rank) coordinates.
    pub fn to_point(self) -> (r: Point)
        requires
            self.wf(),
            self.spec_is_valid(),
        ensures
            r.file == self.spec_index() % 8,
            r.rank == self.spec_index() / 8,
    {
        match self {
            Field::OnBoard(i) => Point { file: i % 8, rank: i / 8 },
            Field::INVALID => vstd::pervasive::unreached(),
        }
    }
}

impl From<u8> for Field {
    /// Total construction from a byte: 0..=63 yields the square with that
    /// index, anything larger collapses to `INVALID`.
    fn from(value: u8) -> (r: Self) {
        if value <= 63 {
            Field::OnBoard(value)
        } else {
            Field::INVALID
        }
    }
}

impl vstd::std_specs::convert::FromSpecImpl<u8> for Field {
    open spec fn obeys_from_spec() -> bool {
        true
    }

    open spec fn from_spec(v: u8) -> Self {
        Field::spec_from_u8(v)
    }
}

impl From<i8> for Field {
    /// Construction from a signed byte reinterprets the bits: a negative
    /// value becomes a large unsigned one and therefore collapses to
    /// `INVALID`.
    fn from(value: i8) -> (r: Self) {
        if value < 0 {
            Field::INVALID
        } else {
            Field::from(value as u8)
        }
    }
}

impl vstd::std_specs::convert::FromSpecImpl<i8> for Field {
    open spec fn obeys_from_spec() -> bool {
        true
    }

    open spec fn from_spec(v: i8) -> Self {
        if 0 <= v <= 63 {
            Field::spec_from_u8(v as u8)
        } else {
            Field::INVALID
        }
    }
}

/// Constructing a field from a number keeps the number exactly when it is in
/// range, and yields `INVALID` exactly when it is not.
pub proof fn lemma_field_from_u8(v: u8)
    ensures
        Field::spec_from_u8(v).spec_is_valid() <==> v <= 63,
        v <= 63 ==> Field::spec_from_u8(v).spec_index() == v,
        v > 63 ==> Field::spec_from_u8(v) == Field::INVALID,
        Field::spec_from_u8(v).wf(),
{
}

/// Round trip: rebuilding a valid field from its own file and rank gives the
/// field back.
pub proof fn lemma_new_file_rank(f: Field)
    requires
        f.wf(),
        f.spec_is_valid(),
    ensures
        Field::spec_new(f.spec_file(), f.spec_rank()) == f,
{
}

} // verus!
