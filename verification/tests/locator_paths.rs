//! The locator's classification of repository scans, and its path
//! arithmetic.

use lending_grader::errors::ProgramLoadError;
use lending_grader::identity::Identity;
use lending_grader::locator::{
    check_program_available, file_part, file_stem_of, locate, locate_identity, parent_dir,
    RepoScan,
};

fn custom_identity() -> Identity {
    Identity::from_bytes([9u8; 32])
}

fn scan(
    repo_exists: bool,
    artifact: Option<&str>,
    identity: Option<Identity>,
) -> RepoScan {
    RepoScan {
        repo_path: "/work/repo".to_string(),
        repo_exists,
        artifact_path: artifact.map(|s| s.to_string()),
        declared_identity: identity,
    }
}

#[test]
fn missing_repo_is_repo_not_found() {
    let r = locate(&scan(false, None, None));
    match r {
        Err(ProgramLoadError::RepoNotFound(p)) => assert_eq!(p, "/work/repo"),
        _ => panic!("expected RepoNotFound"),
    }
}

#[test]
fn missing_artifact_is_program_not_built() {
    let r = locate(&scan(true, None, Some(custom_identity())));
    match r {
        Err(ProgramLoadError::ProgramNotBuilt(p)) => assert_eq!(p, "/work/repo"),
        _ => panic!("expected ProgramNotBuilt"),
    }
}

#[test]
fn not_built_is_distinguishable_from_repo_missing() {
    let built_err = locate(&scan(true, None, Some(custom_identity()))).unwrap_err();
    let repo_err = locate(&scan(false, None, None)).unwrap_err();
    assert!(matches!(built_err, ProgramLoadError::ProgramNotBuilt(_)));
    assert!(matches!(repo_err, ProgramLoadError::RepoNotFound(_)));
    assert!(!matches!(built_err, ProgramLoadError::RepoNotFound(_)));
}

#[test]
fn slashless_artifact_is_dir_not_found() {
    let r = locate(&scan(true, Some("program.so"), Some(custom_identity())));
    match r {
        Err(ProgramLoadError::ProgramDirNotFound(p)) => assert_eq!(p, "program.so"),
        _ => panic!("expected ProgramDirNotFound"),
    }
}

#[test]
fn complete_scan_resolves_artifact() {
    let r = locate(
        &scan(true, Some("/work/repo/target/deploy/lending.so"), Some(custom_identity())),
    );
    let artifact = r.expect("expected a resolved artifact");
    assert_eq!(artifact.path, "/work/repo/target/deploy/lending.so");
    assert_eq!(artifact.program_dir, "/work/repo/target/deploy");
    assert_eq!(artifact.program_name, "lending");
    assert!(artifact.identity.same_as(&custom_identity()));
}

#[test]
fn artifact_without_stem_gets_default_name() {
    let r = locate(&scan(true, Some("/deploy/"), Some(custom_identity())));
    let artifact = r.expect("expected a resolved artifact");
    assert_eq!(artifact.program_name, "lending_program");
}

#[test]
fn missing_identity_is_program_not_built() {
    let r = locate(&scan(true, Some("/work/repo/target/deploy/lending.so"), None));
    assert!(matches!(r, Err(ProgramLoadError::ProgramNotBuilt(_))));
}

#[test]
fn locate_identity_extracts_declared_identity() {
    let r = locate_identity(&scan(true, None, Some(custom_identity())));
    assert!(r.unwrap().same_as(&custom_identity()));
    let r = locate_identity(&scan(false, None, Some(custom_identity())));
    assert!(matches!(r, Err(ProgramLoadError::RepoNotFound(_))));
    let r = locate_identity(&scan(true, None, None));
    assert!(matches!(r, Err(ProgramLoadError::ProgramNotBuilt(_))));
}

#[test]
fn program_available_needs_repo_and_artifact() {
    assert!(check_program_available(&scan(true, Some("/r/t/a.so"), None)).is_ok());
    assert!(check_program_available(&scan(true, None, None)).is_err());
    assert!(check_program_available(&scan(false, Some("/r/t/a.so"), None)).is_err());
}

#[test]
fn parent_dir_splits_at_last_separator() {
    assert_eq!(parent_dir("/a/b/c.so").unwrap(), "/a/b");
    assert_eq!(parent_dir("a/b").unwrap(), "a");
    assert_eq!(parent_dir("/x.so").unwrap(), "");
    assert!(parent_dir("x.so").is_none());
    assert!(parent_dir("").is_none());
}

#[test]
fn file_part_takes_everything_after_last_separator() {
    assert_eq!(file_part("/a/b/c.so"), "c.so");
    assert_eq!(file_part("c.so"), "c.so");
    assert_eq!(file_part("/a/b/"), "");
}

#[test]
fn file_stem_strips_the_last_extension() {
    assert_eq!(file_stem_of("lending.so"), "lending");
    assert_eq!(file_stem_of("archive.tar.gz"), "archive.tar");
    assert_eq!(file_stem_of("lending"), "lending");
    assert_eq!(file_stem_of(".hidden"), ".hidden");
    assert_eq!(file_stem_of(""), "");
}
