//! The structural stage predicates over a submission's declarations.

use lending_grader::errors::CaseError;
use lending_grader::program_info::{FieldInfo, InstructionInfo, ProgramInfo, StructInfo};
use lending_grader::stages::account_structure::{
    test_account_practice, test_account_space, test_bank_account,
};
use lending_grader::stages::interest::{test_accrued_interest, test_interest_basics};
use lending_grader::stages::lending_core::{test_core_practice, test_ltv_calculation};
use lending_grader::stages::liquidation::{
    test_health_factor, test_liquidation_process, test_liquidation_trigger,
};
use lending_grader::stages::pda::{test_pda_bump_seeds, test_pda_concept, test_pda_practice};
use lending_grader::stages::security::test_reentrancy_protection;
use lending_grader::stages::treasury::{
    test_treasury_creation, test_treasury_intro, test_treasury_security,
};
use lending_grader::text::{contains_sub, name_has_keyword};

fn named(name: &str) -> StructInfo {
    StructInfo { name: name.to_string(), fields: vec![] }
}

fn with_fields(name: &str, fields: &[&str]) -> StructInfo {
    StructInfo {
        name: name.to_string(),
        fields: fields.iter().map(|f| FieldInfo { name: f.to_string() }).collect(),
    }
}

fn ops(names: &[&str]) -> Vec<InstructionInfo> {
    names.iter().map(|n| InstructionInfo { name: n.to_string() }).collect()
}

fn empty_info() -> ProgramInfo {
    ProgramInfo { structs: vec![], accounts: vec![], instructions: vec![] }
}

#[test]
fn substring_search_finds_inner_matches() {
    assert!(contains_sub("bankaccountv2", "bank"));
    assert!(contains_sub("my_ltv_ratio", "ltv"));
    assert!(contains_sub("abc", ""));
    assert!(!contains_sub("", "a"));
    assert!(!contains_sub("bnk", "bank"));
}

#[test]
fn keyword_match_is_case_insensitive() {
    assert!(name_has_keyword("BankAccountV2", "bank"));
    assert!(name_has_keyword("TREASURY", "treasury"));
    assert!(!name_has_keyword("Vault", "bank"));
}

#[test]
fn camel_cased_bank_structure_satisfies_the_bank_check() {
    let mut info = empty_info();
    info.structs.push(named("BankAccountV2"));
    assert!(test_bank_account(&info).is_ok());
}

#[test]
fn bank_check_reports_absence() {
    let mut info = empty_info();
    info.structs.push(named("Vault"));
    match test_bank_account(&info) {
        Err(CaseError::Inspection(m)) => assert_eq!(m, "Bank account not found"),
        _ => panic!("expected an inspection failure"),
    }
}

#[test]
fn bank_check_accepts_account_types_too() {
    let mut info = empty_info();
    info.accounts.push(named("bank_state"));
    assert!(test_bank_account(&info).is_ok());
}

#[test]
fn account_space_check_looks_at_struct_fields() {
    let mut info = empty_info();
    info.structs.push(with_fields("Config", &["account_space"]));
    assert!(test_account_space(&info).is_ok());
    assert!(test_account_space(&empty_info()).is_err());
}

#[test]
fn account_practice_needs_accounts_or_structs() {
    let mut info = empty_info();
    assert!(test_account_practice(&info).is_err());
    info.accounts.push(named("One"));
    assert!(test_account_practice(&info).is_err());
    info.accounts.push(named("Two"));
    assert!(test_account_practice(&info).is_ok());
    let mut info = empty_info();
    info.structs.push(named("Anything"));
    assert!(test_account_practice(&info).is_ok());
}

#[test]
fn interest_checks_look_at_fields_of_both_kinds() {
    let mut info = empty_info();
    info.accounts.push(with_fields("Bank", &["InterestRate"]));
    assert!(test_interest_basics(&info).is_ok());
    assert!(test_accrued_interest(&info).is_err());
    let mut info = empty_info();
    info.structs.push(with_fields("Bank", &["last_accrued_at"]));
    assert!(test_accrued_interest(&info).is_ok());
}

#[test]
fn ltv_check_accepts_collateral_fields() {
    let mut info = empty_info();
    info.structs.push(with_fields("Loan", &["collateral_amount"]));
    assert!(test_ltv_calculation(&info).is_ok());
    match test_ltv_calculation(&empty_info()) {
        Err(CaseError::Inspection(m)) => assert_eq!(m, "LTV/health factor not found"),
        _ => panic!("expected an inspection failure"),
    }
}

#[test]
fn core_practice_needs_two_lending_operations() {
    let mut info = empty_info();
    info.instructions = ops(&["init"]);
    assert!(test_core_practice(&info).is_err());
    info.instructions = ops(&["borrow_tokens", "init"]);
    assert!(test_core_practice(&info).is_err());
    info.instructions = ops(&["borrow_tokens", "repay_loan", "init"]);
    assert!(test_core_practice(&info).is_ok());
    info.instructions = ops(&["Lend", "LEND_MORE"]);
    assert!(test_core_practice(&info).is_ok());
}

#[test]
fn health_and_trigger_checks_read_fields() {
    let mut info = empty_info();
    info.accounts.push(with_fields("User", &["health_factor"]));
    assert!(test_health_factor(&info).is_ok());
    assert!(test_liquidation_trigger(&info).is_err());
    let mut info = empty_info();
    info.structs.push(with_fields("Bank", &["liquidation_threshold"]));
    assert!(test_liquidation_trigger(&info).is_ok());
}

#[test]
fn liquidation_process_reads_operation_names() {
    let mut info = empty_info();
    info.instructions = ops(&["LiquidateAccount"]);
    assert!(test_liquidation_process(&info).is_ok());
    info.instructions = ops(&["close"]);
    assert!(test_liquidation_process(&info).is_err());
}

#[test]
fn pda_checks_cover_names_fields_and_operations() {
    let mut info = empty_info();
    info.accounts.push(named("TreasuryPda"));
    assert!(test_pda_concept(&info).is_ok());
    assert!(test_pda_practice(&info).is_ok());
    assert!(test_pda_bump_seeds(&info).is_err());
    let mut info = empty_info();
    info.accounts.push(with_fields("Vault", &["bump"]));
    assert!(test_pda_bump_seeds(&info).is_ok());
    let mut info = empty_info();
    info.instructions = ops(&["derive_pda"]);
    assert!(test_pda_practice(&info).is_ok());
}

#[test]
fn reentrancy_check_reads_account_fields() {
    let mut info = empty_info();
    info.accounts.push(with_fields("Vault", &["reentrancy_guard"]));
    assert!(test_reentrancy_protection(&info).is_ok());
    assert!(test_reentrancy_protection(&empty_info()).is_err());
}

#[test]
fn treasury_checks_read_names_and_fields() {
    let mut info = empty_info();
    info.structs.push(named("TreasuryConfig"));
    assert!(test_treasury_intro(&info).is_ok());
    assert!(test_treasury_creation(&info).is_err());
    let mut info = empty_info();
    info.accounts.push(with_fields("Treasury", &["owner"]));
    assert!(test_treasury_intro(&info).is_ok());
    assert!(test_treasury_creation(&info).is_ok());
    assert!(test_treasury_security(&info).is_ok());
}
