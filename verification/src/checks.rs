//! The shared stage checks built on the locator and the smoke test.
//!
//! Roughly a dozen stages differ only in an optional extra precondition
//! layered before the same smoke test: the environment stage first
//! demands that the repository and artifact exist, the identity stages
//! demand that the program identity was customized away from the starter
//! template, and the rest delegate to the smoke test directly.

use vstd::prelude::*;
use vstd::string::*;

use crate::errors::{
    spec_context_error_message, CaseError, ProgramLoadError, TestContextError,
};
use crate::fixture::{run_initialize_smoke, LendingFixture};
use crate::identity::{placeholder_identity, spec_default_identity, spec_placeholder_identity};
use crate::locator::{check_program_available, locate_identity, RepoScan};

verus! {

/// The message of a failed stage: names the stage and the error.
pub fn format_test_error(stage_name: &str, error: &TestContextError) -> (r: String)
    ensures
        r@ == "Test '"@ + stage_name@ + "' failed: "@ + spec_context_error_message(*error),
{
    String::from_str("Test '").concat(stage_name).concat("' failed: ").concat(
        error.message().as_str(),
    )
}

/// The message of a passed stage.
pub fn format_test_success(stage_name: &str) -> (r: String)
    ensures
        r@ == "Test '"@ + stage_name@ + "' passed successfully"@,
{
    String::from_str("Test '").concat(stage_name).concat("' passed successfully")
}

/// What every plain smoke-test stage guarantees: a fixture-construction
/// failure is surfaced verbatim, and a failure after construction is a
/// context-level error, never a rejection by the submission's own logic.
pub open spec fn spec_smoke_stage_post(
    built: Result<LendingFixture, TestContextError>,
    r: Result<(), CaseError>,
) -> bool {
    &&& built is Err ==> r == Err::<(), CaseError>(CaseError::Context(built->Err_0))
    &&& built is Ok && r is Err ==> (r->Err_0 matches CaseError::Context(e) && !(
    e is ExecutionError))
}

/// The basic language-and-toolchain stage: the shared smoke test.
pub fn run_rust_basics_check(built: Result<LendingFixture, TestContextError>) -> (r: Result<
    (),
    CaseError,
>)
    requires
        built matches Ok(f) ==> f.context.wf(),
    ensures
        spec_smoke_stage_post(built, r),
{
    run_initialize_smoke(built)
}

/// The runtime-model literacy stage: the shared smoke test.
pub fn run_solana_model_check(built: Result<LendingFixture, TestContextError>) -> (r: Result<
    (),
    CaseError,
>)
    requires
        built matches Ok(f) ==> f.context.wf(),
    ensures
        spec_smoke_stage_post(built, r),
{
    run_initialize_smoke(built)
}

/// The fungible-token literacy stage: the shared smoke test.
pub fn run_spl_token_basics_check(built: Result<LendingFixture, TestContextError>) -> (r: Result<
    (),
    CaseError,
>)
    requires
        built matches Ok(f) ==> f.context.wf(),
    ensures
        spec_smoke_stage_post(built, r),
{
    run_initialize_smoke(built)
}

/// The cross-program transfer stage: the shared smoke test.
pub fn run_cpi_transfer_check(built: Result<LendingFixture, TestContextError>) -> (r: Result<
    (),
    CaseError,
>)
    requires
        built matches Ok(f) ==> f.context.wf(),
    ensures
        spec_smoke_stage_post(built, r),
{
    run_initialize_smoke(built)
}

/// The token-transfer stage: the shared smoke test.
pub fn run_token_transfer_check(built: Result<LendingFixture, TestContextError>) -> (r: Result<
    (),
    CaseError,
>)
    requires
        built matches Ok(f) ==> f.context.wf(),
    ensures
        spec_smoke_stage_post(built, r),
{
    run_initialize_smoke(built)
}

/// The derived-address category placeholder: the shared smoke test.
pub fn run_pda_checks(built: Result<LendingFixture, TestContextError>) -> (r: Result<
    (),
    CaseError,
>)
    requires
        built matches Ok(f) ==> f.context.wf(),
    ensures
        spec_smoke_stage_post(built, r),
{
    run_initialize_smoke(built)
}

/// The treasury category placeholder: the shared smoke test.
pub fn run_treasury_checks(built: Result<LendingFixture, TestContextError>) -> (r: Result<
    (),
    CaseError,
>)
    requires
        built matches Ok(f) ==> f.context.wf(),
    ensures
        spec_smoke_stage_post(built, r),
{
    run_initialize_smoke(built)
}

/// The account-structure category placeholder: the shared smoke test.
pub fn run_account_structure_checks(built: Result<LendingFixture, TestContextError>) -> (r:
    Result<(), CaseError>)
    requires
        built matches Ok(f) ==> f.context.wf(),
    ensures
        spec_smoke_stage_post(built, r),
{
    run_initialize_smoke(built)
}

/// The lending-core category placeholder: the shared smoke test.
pub fn run_lending_core_checks(built: Result<LendingFixture, TestContextError>) -> (r: Result<
    (),
    CaseError,
>)
    requires
        built matches Ok(f) ==> f.context.wf(),
    ensures
        spec_smoke_stage_post(built, r),
{
    run_initialize_smoke(built)
}

/// The oracle category placeholder: the shared smoke test.
pub fn run_oracle_checks(built: Result<LendingFixture, TestContextError>) -> (r: Result<
    (),
    CaseError,
>)
    requires
        built matches Ok(f) ==> f.context.wf(),
    ensures
        spec_smoke_stage_post(built, r),
{
    run_initialize_smoke(built)
}

/// The liquidation category placeholder: the shared smoke test.
pub fn run_liquidation_checks(built: Result<LendingFixture, TestContextError>) -> (r: Result<
    (),
    CaseError,
>)
    requires
        built matches Ok(f) ==> f.context.wf(),
    ensures
        spec_smoke_stage_post(built, r),
{
    run_initialize_smoke(built)
}

/// The interest category placeholder: the shared smoke test.
pub fn run_interest_checks(built: Result<LendingFixture, TestContextError>) -> (r: Result<
    (),
    CaseError,
>)
    requires
        built matches Ok(f) ==> f.context.wf(),
    ensures
        spec_smoke_stage_post(built, r),
{
    run_initialize_smoke(built)
}

/// The security category placeholder: the shared smoke test.
pub fn run_security_checks(built: Result<LendingFixture, TestContextError>) -> (r: Result<
    (),
    CaseError,
>)
    requires
        built matches Ok(f) ==> f.context.wf(),
    ensures
        spec_smoke_stage_post(built, r),
{
    run_initialize_smoke(built)
}

/// The testing category placeholder: the shared smoke test.
pub fn run_testing_checks(built: Result<LendingFixture, TestContextError>) -> (r: Result<
    (),
    CaseError,
>)
    requires
        built matches Ok(f) ==> f.context.wf(),
    ensures
        spec_smoke_stage_post(built, r),
{
    run_initialize_smoke(built)
}

/// What the environment-setup stage guarantees on top of the smoke test:
/// a missing repository and a missing artifact are reported before any
/// execution is attempted.
pub open spec fn spec_env_setup_post(
    scan: RepoScan,
    built: Result<LendingFixture, TestContextError>,
    r: Result<(), CaseError>,
) -> bool {
    &&& !scan.repo_exists ==> (r matches Err(CaseError::Config(m)) && m@
        == "Repository directory not found: "@ + scan.repo_path@)
    &&& scan.repo_exists && scan.artifact_path is None ==> (r matches Err(
        CaseError::Load(ProgramLoadError::ProgramNotBuilt(p)),
    ) && p@ == scan.repo_path@)
    &&& scan.repo_exists && scan.artifact_path is Some ==> spec_smoke_stage_post(built, r)
}

/// The environment-setup stage: the repository must exist, the program
/// must be built, and the smoke test must pass.
pub fn run_env_setup_check(
    scan: &RepoScan,
    built: Result<LendingFixture, TestContextError>,
) -> (r: Result<(), CaseError>)
    requires
        built matches Ok(f) ==> f.context.wf(),
    ensures
        spec_env_setup_post(*scan, built, r),
{
    if !scan.repo_exists {
        return Err(
            CaseError::Config(
                String::from_str("Repository directory not found: ").concat(
                    scan.repo_path.as_str(),
                ),
            ),
        );
    }
    match check_program_available(scan) {
        Err(e) => {
            return Err(e);
        },
        Ok(()) => {},
    }
    run_initialize_smoke(built)
}

/// The message of the identity stages' rejection.
pub open spec fn spec_identity_rejection_message() -> Seq<char> {
    "Program ID is still default"@
}

/// What the identity stages guarantee: locator failures surface first;
/// an identity equal to the default or the placeholder is rejected with
/// the never-customized message; only then does the smoke test run.
pub open spec fn spec_identity_stage_post(
    scan: RepoScan,
    built: Result<LendingFixture, TestContextError>,
    r: Result<(), CaseError>,
) -> bool {
    &&& !scan.repo_exists ==> (r matches Err(CaseError::Load(ProgramLoadError::RepoNotFound(p)))
        && p@ == scan.repo_path@)
    &&& scan.repo_exists && scan.declared_identity is None ==> (r matches Err(
        CaseError::Load(ProgramLoadError::ProgramNotBuilt(p)),
    ) && p@ == scan.repo_path@)
    &&& scan.repo_exists && scan.declared_identity is Some && (scan.declared_identity->0@
        == spec_default_identity() || scan.declared_identity->0@ == spec_placeholder_identity())
        ==> (r matches Err(CaseError::Identity(m)) && m@ == spec_identity_rejection_message())
    &&& scan.repo_exists && scan.declared_identity is Some && scan.declared_identity->0@
        != spec_default_identity() && scan.declared_identity->0@ != spec_placeholder_identity()
        ==> spec_smoke_stage_post(built, r)
}

/// The identity-customization stage: the declared identity must differ
/// from both the default and the starter template's placeholder, and the
/// smoke test must pass.
pub fn run_anchor_try_check(
    scan: &RepoScan,
    built: Result<LendingFixture, TestContextError>,
) -> (r: Result<(), CaseError>)
    requires
        built matches Ok(f) ==> f.context.wf(),
    ensures
        spec_identity_stage_post(*scan, built, r),
{
    let program_id = match locate_identity(scan) {
        Err(e) => {
            return Err(CaseError::Load(e));
        },
        Ok(id) => id,
    };
    if program_id.is_default() || program_id.same_as(&placeholder_identity()) {
        return Err(CaseError::Identity(String::from_str("Program ID is still default")));
    }
    run_initialize_smoke(built)
}

/// The deployment stage: the same identity requirement and smoke test.
pub fn run_deployment_checks(
    scan: &RepoScan,
    built: Result<LendingFixture, TestContextError>,
) -> (r: Result<(), CaseError>)
    requires
        built matches Ok(f) ==> f.context.wf(),
    ensures
        spec_identity_stage_post(*scan, built, r),
{
    let program_id = match locate_identity(scan) {
        Err(e) => {
            return Err(CaseError::Load(e));
        },
        Ok(id) => id,
    };
    if program_id.is_default() || program_id.same_as(&placeholder_identity()) {
        return Err(CaseError::Identity(String::from_str("Program ID is still default")));
    }
    run_initialize_smoke(built)
}

/// Law: a repository whose derived identity equals the known placeholder
/// fails the identity stage with the never-customized message, even
/// where the program builds and its smoke test would have succeeded.
pub proof fn lemma_identity_stage_rejects_placeholder(
    scan: RepoScan,
    built: Result<LendingFixture, TestContextError>,
    r: Result<(), CaseError>,
)
    requires
        spec_identity_stage_post(scan, built, r),
        scan.repo_exists,
        scan.declared_identity is Some,
        scan.declared_identity->0@ == spec_placeholder_identity(),
    ensures
        r is Err,
        r->Err_0 matches CaseError::Identity(m) && m@ == spec_identity_rejection_message(),
{
}

} // verus!
