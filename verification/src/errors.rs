//! The error taxonomy of the grading engine.
//!
//! Every stage check reports through one uniform channel, [`CaseError`].
//! Beneath it sit the two structured kinds: [`ProgramLoadError`] for
//! everything the locator can diagnose about the learner's repository, and
//! [`TestContextError`] for failures while executing instructions against
//! the simulator.

use vstd::prelude::*;
use vstd::string::*;

verus! {

/// What the program locator can report about a repository.
///
/// The three variants are deliberately distinct so a learner can tell
/// "your repository is missing" from "you have not built your program"
/// from "the artifact's directory cannot be resolved".
#[derive(Debug)]
pub enum ProgramLoadError {
    /// The configured repository path does not exist. Holds the path.
    RepoNotFound(String),
    /// An artifact was found but its containing directory cannot be
    /// resolved. Holds the artifact path.
    ProgramDirNotFound(String),
    /// No compiled program binary is present. Holds the repository path.
    ProgramNotBuilt(String),
}

/// A failure while constructing or driving the execution context.
#[derive(Debug)]
pub enum TestContextError {
    /// The locator failed before a context could be constructed.
    Load(ProgramLoadError),
    /// The submission's own program logic rejected the instruction.
    /// Benign for smoke-test stages. Holds the program's error text.
    ExecutionError(String),
    /// A context-level failure: malformed instruction, unregistered
    /// account, or a simulator-internal error. Always fatal.
    ContextError(String),
}

/// The uniform error channel at the stage-check boundary.
#[derive(Debug)]
pub enum CaseError {
    /// A required setting or location is absent or invalid.
    Config(String),
    /// The locator could not resolve the learner's artifact.
    Load(ProgramLoadError),
    /// The derived on-chain identity was never customized.
    Identity(String),
    /// The execution context failed.
    Context(TestContextError),
    /// The external verification protocol failed for this stage.
    Verification(String),
    /// A structural predicate over the submission did not hold.
    Inspection(String),
}

/// The message text of a [`ProgramLoadError`], as a sequence of characters.
pub open spec fn spec_load_error_message(e: ProgramLoadError) -> Seq<char> {
    match e {
        ProgramLoadError::RepoNotFound(p) => "Repository directory not found: "@ + p@,
        ProgramLoadError::ProgramDirNotFound(p) => "Program directory not found for: "@ + p@,
        ProgramLoadError::ProgramNotBuilt(p) => "Program not built under: "@ + p@,
    }
}

/// The message text of a [`TestContextError`].
pub open spec fn spec_context_error_message(e: TestContextError) -> Seq<char> {
    match e {
        TestContextError::Load(inner) => spec_load_error_message(inner),
        TestContextError::ExecutionError(m) => "Program execution failed: "@ + m@,
        TestContextError::ContextError(m) => "Test context error: "@ + m@,
    }
}

/// The message text of a [`CaseError`].
pub open spec fn spec_case_error_message(e: CaseError) -> Seq<char> {
    match e {
        CaseError::Config(m) => m@,
        CaseError::Load(inner) => spec_load_error_message(inner),
        CaseError::Identity(m) => m@,
        CaseError::Context(inner) => spec_context_error_message(inner),
        CaseError::Verification(m) => m@,
        CaseError::Inspection(m) => m@,
    }
}

impl ProgramLoadError {
    /// A learner-facing message that distinguishes the three cases.
    pub fn message(&self) -> (r: String)
        ensures
            r@ == spec_load_error_message(*self),
    {
        match self {
            ProgramLoadError::RepoNotFound(p) => {
                String::from_str("Repository directory not found: ").concat(p.as_str())
            },
            ProgramLoadError::ProgramDirNotFound(p) => {
                String::from_str("Program directory not found for: ").concat(p.as_str())
            },
            ProgramLoadError::ProgramNotBuilt(p) => {
                String::from_str("Program not built under: ").concat(p.as_str())
            },
        }
    }
}

impl TestContextError {
    /// A learner-facing message for context failures.
    pub fn message(&self) -> (r: String)
        ensures
            r@ == spec_context_error_message(*self),
    {
        match self {
            TestContextError::Load(inner) => inner.message(),
            TestContextError::ExecutionError(m) => {
                String::from_str("Program execution failed: ").concat(m.as_str())
            },
            TestContextError::ContextError(m) => {
                String::from_str("Test context error: ").concat(m.as_str())
            },
        }
    }
}

impl CaseError {
    /// The explanatory message a stage check surfaces on failure.
    pub fn message(&self) -> (r: String)
        ensures
            r@ == spec_case_error_message(*self),
    {
        match self {
            CaseError::Config(m) => m.clone(),
            CaseError::Load(inner) => inner.message(),
            CaseError::Identity(m) => m.clone(),
            CaseError::Context(inner) => inner.message(),
            CaseError::Verification(m) => m.clone(),
            CaseError::Inspection(m) => m.clone(),
        }
    }
}

/// Lift a [`TestContextError`] into the uniform channel.
pub fn to_case_error(error: TestContextError) -> (r: CaseError)
    ensures
        r == CaseError::Context(error),
{
    CaseError::Context(error)
}

/// Lift a [`ProgramLoadError`] into the uniform channel.
pub fn to_case_error_from_load(error: ProgramLoadError) -> (r: CaseError)
    ensures
        r == CaseError::Load(error),
{
    CaseError::Load(error)
}

/// Lift a [`TestContextError`] into the uniform channel; a convenience
/// alias used where a conversion function is passed by name.
pub fn to_case_error_from_context(error: TestContextError) -> (r: CaseError)
    ensures
        r == CaseError::Context(error),
{
    CaseError::Context(error)
}

} // verus!
