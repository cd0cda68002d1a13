//! The structural stage checks.
//!
//! Each stage check runs a pure predicate over the structural description
//! of the submission: a permissive, case-insensitive keyword match, since
//! the grading goal is presence of a concept, not exact naming.

pub mod account_structure;
pub mod interest;
pub mod lending_core;
pub mod liquidation;
pub mod pda;
pub mod security;
pub mod treasury;
