//! Building blocks of an alpha-beta chess engine: bitboard position
//! representation with incremental Zobrist hashing, pseudo-legal move
//! generation with legality by play, a lock-free transposition table, the
//! history heuristic for quiet-move ordering, aspiration windows, and the
//! time manager of the search.
pub mod attacks;
pub mod bits;
pub mod board;
pub mod historytables;

pub mod moves;
pub mod search;
pub mod timeman;
pub mod tt;
pub mod types;
pub mod zobrist;
