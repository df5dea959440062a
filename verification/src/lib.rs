//! Distance metrics between pairs of character sequences.
//!
//! The crate offers the Levenshtein (edit) distance, computed with the
//! Wagner-Fischer dynamic program over a single rolling row, and the
//! Hamming distance over positions up to the shorter input's length.
//! Results are delivered in a caller-chosen unsigned integer width; a
//! count that does not fit in that width is the one failure the library
//! knows.

pub mod laws;
pub mod number;
pub mod strings;
