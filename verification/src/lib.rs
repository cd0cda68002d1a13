//! Stage-grading engine for a learner's on-chain lending program.
//!
//! The crate covers the core of a grading harness: a program locator that
//! classifies what was found in the learner's repository, an execution
//! context that owns simulated account state and classifies instruction
//! outcomes, a test fixture that drives a canonical "initialize" smoke test,
//! and a verification dispatcher that inspects a submission's structure or
//! interprets the verdict of an external verification subprocess.

pub mod account;
pub mod checks;
pub mod context;
pub mod errors;
pub mod fixture;
pub mod identity;
pub mod instruction;
pub mod locator;
pub mod program_info;
pub mod stages;
pub mod text;
pub mod verdict;
