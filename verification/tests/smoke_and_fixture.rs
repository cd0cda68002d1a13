//! The execution context, the default fixture, and the smoke-test
//! classification, driven against a real simulator instance.

use mollusk_svm::Mollusk;
use sha2::{Digest, Sha256};

use lending_grader::account::create_system_account;
use lending_grader::context::{classify_sim_outcome, init_test_context, SimOutcome};
use lending_grader::errors::{CaseError, ProgramLoadError, TestContextError};
use lending_grader::fixture::{classify_smoke_outcome, run_initialize_smoke, LendingFixture};
use lending_grader::identity::Identity;
use lending_grader::instruction::{build_initialize_data, create_lending_instruction, AccountRef};

fn system_identity() -> Identity {
    Identity::from_bytes([0u8; 32])
}

#[test]
fn initialize_data_is_the_known_discriminator() {
    assert_eq!(build_initialize_data(), vec![175u8, 175, 109, 31, 13, 152, 155, 237]);
}

#[test]
fn initialize_data_matches_a_fresh_digest() {
    let mut hasher = Sha256::new();
    hasher.update("global:initialize".as_bytes());
    let digest = hasher.finalize();
    assert_eq!(build_initialize_data(), digest[..8].to_vec());
}

#[test]
fn execution_error_counts_as_smoke_success() {
    let r = classify_smoke_outcome(Err(TestContextError::ExecutionError(
        "custom program error".to_string(),
    )));
    assert!(r.is_ok());
}

#[test]
fn plain_success_counts_as_smoke_success() {
    assert!(classify_smoke_outcome(Ok(())).is_ok());
}

#[test]
fn context_error_fails_the_smoke_test() {
    let r = classify_smoke_outcome(Err(TestContextError::ContextError(
        "missing account".to_string(),
    )));
    match r {
        Err(CaseError::Context(TestContextError::ContextError(m))) => {
            assert_eq!(m, "missing account")
        },
        _ => panic!("expected a context error"),
    }
}

#[test]
fn fixture_smoke_passes_when_program_rejects_initialize() {
    // The all-zero identity addresses the base system program, which is
    // registered in a default simulator and rejects the discriminator
    // payload with its own logic error rather than a structural failure.
    let fixture = LendingFixture::new_default(Mollusk::default(), system_identity());
    let r = run_initialize_smoke(fixture);
    assert!(r.is_ok());
}

#[test]
fn execute_initialize_surfaces_the_programs_rejection() {
    let mut fixture =
        LendingFixture::new_default(Mollusk::default(), system_identity()).unwrap();
    let r = fixture.execute_initialize();
    assert!(matches!(r, Err(TestContextError::ExecutionError(_))));
}

#[test]
fn unregistered_account_is_a_context_error() {
    let mut fixture =
        LendingFixture::new_default(Mollusk::default(), system_identity()).unwrap();
    let stranger = Identity::from_bytes([7u8; 32]);
    let instruction = create_lending_instruction(
        system_identity(),
        build_initialize_data(),
        vec![AccountRef { id: stranger, is_signer: true, is_writable: true }],
    );
    let r = fixture.context.execute_instruction(&instruction);
    match &r {
        Err(TestContextError::ContextError(m)) => {
            assert_eq!(m, "instruction references an unregistered account")
        },
        _ => panic!("expected a context error"),
    }
    let smoke = classify_smoke_outcome(r);
    assert!(smoke.is_err());
}

#[test]
fn unregistered_program_is_a_context_error() {
    let mut context = init_test_context(Mollusk::default(), system_identity()).unwrap();
    let instruction = create_lending_instruction(
        Identity::from_bytes([5u8; 32]),
        build_initialize_data(),
        vec![],
    );
    let r = context.execute_instruction(&instruction);
    match r {
        Err(TestContextError::ContextError(m)) => {
            assert_eq!(m, "instruction targets an unregistered program")
        },
        _ => panic!("expected a context error"),
    }
}

#[test]
fn oversized_account_list_is_a_context_error() {
    let mut context = init_test_context(Mollusk::default(), system_identity()).unwrap();
    context.add_account(system_identity(), create_system_account(1));
    let mut metas = Vec::new();
    for i in 0..255u32 {
        let mut bytes = [9u8; 32];
        bytes[0] = (i % 256) as u8;
        bytes[1] = (i / 256) as u8;
        let id = Identity::from_bytes(bytes);
        context.add_account(id, create_system_account(1));
        metas.push(AccountRef { id, is_signer: false, is_writable: false });
    }
    let instruction =
        create_lending_instruction(system_identity(), build_initialize_data(), metas);
    let r = context.execute_instruction(&instruction);
    match r {
        Err(TestContextError::ContextError(m)) => {
            assert_eq!(m, "instruction references too many accounts")
        },
        _ => panic!("expected a context error"),
    }
}

#[test]
fn admission_check_accepts_exactly_the_good_instructions() {
    let mut context = init_test_context(Mollusk::default(), system_identity()).unwrap();
    let id = Identity::from_bytes([8u8; 32]);
    context.add_account(id, create_system_account(1));
    context.add_account(system_identity(), create_system_account(1));
    let good = create_lending_instruction(
        system_identity(),
        build_initialize_data(),
        vec![AccountRef { id, is_signer: true, is_writable: true }],
    );
    assert!(context.check_instruction_admitted(&good).is_ok());
    let bad_meta = create_lending_instruction(
        system_identity(),
        build_initialize_data(),
        vec![AccountRef { id: Identity::from_bytes([6u8; 32]), is_signer: true, is_writable: true }],
    );
    assert!(context.check_instruction_admitted(&bad_meta).is_err());
    let bad_program = create_lending_instruction(
        Identity::from_bytes([6u8; 32]),
        build_initialize_data(),
        vec![],
    );
    assert!(context.check_instruction_admitted(&bad_program).is_err());
}

#[test]
fn construction_failure_is_surfaced_verbatim() {
    let r = run_initialize_smoke(Err(TestContextError::ContextError("no simulator".to_string())));
    match r {
        Err(CaseError::Context(TestContextError::ContextError(m))) => {
            assert_eq!(m, "no simulator")
        },
        _ => panic!("expected the construction failure back"),
    }
}

#[test]
fn fixture_registers_programs_and_actor() {
    let fixture =
        LendingFixture::new_default(Mollusk::default(), system_identity()).unwrap();
    assert!(fixture.context.has_account(&system_identity()));
    assert!(fixture.context.has_account(&fixture.token_program));
    assert!(fixture.context.has_account(&fixture.associated_token_program));
    assert!(fixture.context.has_account(&fixture.user));
    assert!(!fixture.token_program.same_as(&fixture.associated_token_program));

    // The program under test is registered as an account too.
    let program_id = Identity::from_bytes([3u8; 32]);
    let other = LendingFixture::new_default(Mollusk::default(), program_id).unwrap();
    assert!(other.context.has_account(&program_id));
}

#[test]
fn initialize_instruction_targets_the_program_under_test() {
    let fixture =
        LendingFixture::new_default(Mollusk::default(), Identity::from_bytes([3u8; 32])).unwrap();
    let ix = fixture.initialize_instruction();
    assert!(ix.program_id.same_as(&Identity::from_bytes([3u8; 32])));
    assert_eq!(ix.data, build_initialize_data());
    assert_eq!(ix.accounts.len(), 2);
    assert!(ix.accounts[0].id.same_as(&fixture.user));
    assert!(ix.accounts[0].is_signer && ix.accounts[0].is_writable);
    assert!(ix.accounts[1].id.same_as(&system_identity()));
    assert!(!ix.accounts[1].is_signer && !ix.accounts[1].is_writable);
}

#[test]
fn fixtures_do_not_share_account_state() {
    let mut first =
        LendingFixture::new_default(Mollusk::default(), system_identity()).unwrap();
    let second =
        LendingFixture::new_default(Mollusk::default(), system_identity()).unwrap();

    let extra = Identity::from_bytes([42u8; 32]);
    first.context.add_account(extra, create_system_account(5));
    assert!(first.context.has_account(&extra));
    assert!(!second.context.has_account(&extra));

    // Each fixture funds its own actor; neither sees the other's.
    assert!(!second.context.has_account(&first.user) || first.user.same_as(&second.user));
    assert!(first.context.has_account(&first.user));
    assert!(second.context.has_account(&second.user));
}

#[test]
fn locator_failures_flow_through_the_context_error() {
    let e = TestContextError::Load(ProgramLoadError::ProgramNotBuilt("/r".to_string()));
    assert_eq!(e.message(), "Program not built under: /r");
    let r = run_initialize_smoke(Err(e));
    match r {
        Err(CaseError::Context(TestContextError::Load(ProgramLoadError::ProgramNotBuilt(p)))) => {
            assert_eq!(p, "/r")
        },
        _ => panic!("expected the locator failure back"),
    }
}

#[test]
fn simulator_outcomes_map_onto_the_error_taxonomy() {
    assert!(classify_sim_outcome(SimOutcome::Success(vec![])).is_ok());
    assert!(matches!(
        classify_sim_outcome(SimOutcome::Failure("denied".to_string())),
        Err(TestContextError::ExecutionError(_))
    ));
    assert!(matches!(
        classify_sim_outcome(SimOutcome::Unknown("broken".to_string())),
        Err(TestContextError::ContextError(_))
    ));
}

#[test]
fn context_overwrites_on_repeated_insert() {
    let mut context = init_test_context(Mollusk::default(), system_identity()).unwrap();
    let id = Identity::from_bytes([1u8; 32]);
    context.add_account(id, create_system_account(10));
    context.add_account(id, create_system_account(20));
    assert!(context.has_account(&id));
    let user = context.create_funded_account(1_000);
    assert!(context.has_account(&user));
}
