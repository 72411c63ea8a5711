//! Board-geometry and bitboard primitives for a chess engine.
//!
//! The crate models an 8x8 board as a closed, total algebra: files, ranks and
//! fields carry an explicit `INVALID` sentinel, so every construction and every
//! move stays total and panic-free, and a 64-bit bitboard represents a set of
//! fields with bitwise algebra and ascending-order enumeration.

pub mod bitboard;
pub mod coords;
pub mod direction;
pub mod iter;
pub mod render;

pub use bitboard::Bitboard;
pub use coords::Field;
pub use coords::File;
pub use coords::Point;
pub use coords::Rank;
pub use direction::Direction;
pub use direction::MoveVector;
pub use iter::SetFields;
pub use iter::UnsetFields;
pub use render::FormatterFlags;
