//! The identity-oriented stage checks and the message helpers.

use mollusk_svm::Mollusk;

use lending_grader::checks::{
    format_test_error, format_test_success, run_anchor_try_check, run_deployment_checks,
    run_env_setup_check, run_rust_basics_check,
};
use lending_grader::errors::{CaseError, ProgramLoadError, TestContextError};
use lending_grader::fixture::LendingFixture;
use lending_grader::identity::{placeholder_identity, Identity};
use lending_grader::locator::RepoScan;

fn scan_with_identity(id: Identity) -> RepoScan {
    RepoScan {
        repo_path: "/work/repo".to_string(),
        repo_exists: true,
        artifact_path: Some("/work/repo/target/deploy/lending.so".to_string()),
        declared_identity: Some(id),
    }
}

fn working_fixture() -> Result<LendingFixture, TestContextError> {
    // The all-zero program identity addresses the base system program, so
    // the smoke test runs for real and passes.
    LendingFixture::new_default(Mollusk::default(), Identity::from_bytes([0u8; 32]))
}

#[test]
fn placeholder_identity_is_rejected_even_when_the_program_runs() {
    let scan = scan_with_identity(placeholder_identity());
    let r = run_anchor_try_check(&scan, working_fixture());
    match r {
        Err(CaseError::Identity(m)) => assert_eq!(m, "Program ID is still default"),
        _ => panic!("expected the identity rejection"),
    }
}

#[test]
fn default_identity_is_rejected() {
    let scan = scan_with_identity(Identity::from_bytes([0u8; 32]));
    let r = run_anchor_try_check(&scan, working_fixture());
    assert!(matches!(r, Err(CaseError::Identity(_))));
}

#[test]
fn customized_identity_reaches_the_smoke_test() {
    let scan = scan_with_identity(Identity::from_bytes([9u8; 32]));
    let r = run_anchor_try_check(&scan, working_fixture());
    assert!(r.is_ok());
}

#[test]
fn deployment_check_applies_the_same_identity_rule() {
    let scan = scan_with_identity(placeholder_identity());
    let r = run_deployment_checks(&scan, working_fixture());
    assert!(matches!(r, Err(CaseError::Identity(_))));
    let scan = scan_with_identity(Identity::from_bytes([9u8; 32]));
    assert!(run_deployment_checks(&scan, working_fixture()).is_ok());
}

#[test]
fn identity_check_surfaces_locator_failures_first() {
    let scan = RepoScan {
        repo_path: "/missing".to_string(),
        repo_exists: false,
        artifact_path: None,
        declared_identity: None,
    };
    let r = run_anchor_try_check(&scan, working_fixture());
    assert!(matches!(r, Err(CaseError::Load(ProgramLoadError::RepoNotFound(_)))));
}

#[test]
fn env_setup_rejects_a_missing_repository() {
    let scan = RepoScan {
        repo_path: "/missing".to_string(),
        repo_exists: false,
        artifact_path: None,
        declared_identity: None,
    };
    let r = run_env_setup_check(&scan, working_fixture());
    match r {
        Err(CaseError::Config(m)) => {
            assert_eq!(m, "Repository directory not found: /missing")
        },
        _ => panic!("expected a configuration error"),
    }
}

#[test]
fn env_setup_rejects_an_unbuilt_program() {
    let scan = RepoScan {
        repo_path: "/work/repo".to_string(),
        repo_exists: true,
        artifact_path: None,
        declared_identity: None,
    };
    let r = run_env_setup_check(&scan, working_fixture());
    assert!(matches!(r, Err(CaseError::Load(ProgramLoadError::ProgramNotBuilt(_)))));
}

#[test]
fn env_setup_passes_with_repo_artifact_and_smoke() {
    let scan = scan_with_identity(Identity::from_bytes([9u8; 32]));
    assert!(run_env_setup_check(&scan, working_fixture()).is_ok());
}

#[test]
fn plain_smoke_stage_passes_with_a_working_fixture() {
    assert!(run_rust_basics_check(working_fixture()).is_ok());
}

#[test]
fn error_messages_name_the_stage() {
    let e = TestContextError::ExecutionError("denied".to_string());
    assert_eq!(
        format_test_error("lc1", &e),
        "Test 'lc1' failed: Program execution failed: denied"
    );
    assert_eq!(format_test_success("lc1"), "Test 'lc1' passed successfully");
}

#[test]
fn load_error_messages_distinguish_the_cases() {
    assert_eq!(
        ProgramLoadError::RepoNotFound("/r".to_string()).message(),
        "Repository directory not found: /r"
    );
    assert_eq!(
        ProgramLoadError::ProgramNotBuilt("/r".to_string()).message(),
        "Program not built under: /r"
    );
    assert_eq!(
        ProgramLoadError::ProgramDirNotFound("/r/a.so".to_string()).message(),
        "Program directory not found for: /r/a.so"
    );
}

#[test]
fn case_error_messages_pass_through() {
    let e = CaseError::Context(TestContextError::ContextError("broken".to_string()));
    assert_eq!(e.message(), "Test context error: broken");
    assert_eq!(CaseError::Identity("still default".to_string()).message(), "still default");
}
