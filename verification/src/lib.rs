//! Two small, self-contained verified algorithms.
//!
//! - [`search::binary_search`]: binary search over a sorted slice of
//!   32-bit signed integers, returning the index of a matching element or
//!   `None`, with the empty-slice and boundary cases proved free of
//!   underflow and overflow.
//! - [`brackets::balanced`] and [`recursive::balanced`]: two formulations
//!   (explicit stack, recursive expectation-passing) of a balanced-bracket
//!   check over a character sequence; both are proved to return exactly
//!   [`brackets::is_balanced`] of the input, so they agree on every input.

pub mod brackets;
pub mod recursive;
pub mod search;
