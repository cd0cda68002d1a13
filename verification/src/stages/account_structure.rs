//! Stage checks on the submission's declared account layout.

use vstd::prelude::*;
use vstd::string::*;

use crate::errors::CaseError;
use crate::program_info::{
    any_field_matches, any_name_matches, spec_any_field_matches, spec_any_name_matches,
    ProgramInfo,
};

verus! {

/// The submission must declare a bank-like structure or account type.
pub fn test_bank_account(info: &ProgramInfo) -> (r: Result<(), CaseError>)
    ensures
        r is Ok <==> spec_any_name_matches(info.structs@, "bank"@) || spec_any_name_matches(
            info.accounts@,
            "bank"@,
        ),
        r is Err ==> (r->Err_0 matches CaseError::Inspection(m) && m@ == "Bank account not found"@),
{
    let has_bank = any_name_matches(&info.structs, "bank") || any_name_matches(
        &info.accounts,
        "bank",
    );
    if has_bank {
        Ok(())
    } else {
        Err(CaseError::Inspection(String::from_str("Bank account not found")))
    }
}

/// The submission must size its accounts: some declared structure has a
/// space-like field.
pub fn test_account_space(info: &ProgramInfo) -> (r: Result<(), CaseError>)
    ensures
        r is Ok <==> spec_any_field_matches(info.structs@, "space"@),
        r is Err ==> (r->Err_0 matches CaseError::Inspection(m) && m@
            == "Account space not found"@),
{
    let has_space = any_field_matches(&info.structs, "space");
    if has_space {
        Ok(())
    } else {
        Err(CaseError::Inspection(String::from_str("Account space not found")))
    }
}

/// The submission must declare more than one account type, or at least
/// one data structure.
pub fn test_account_practice(info: &ProgramInfo) -> (r: Result<(), CaseError>)
    ensures
        r is Ok <==> info.accounts@.len() > 1 || info.structs@.len() > 0,
        r is Err ==> (r->Err_0 matches CaseError::Inspection(m) && m@
            == "Account implementation not found"@),
{
    if info.accounts.len() > 1 || info.structs.len() > 0 {
        Ok(())
    } else {
        Err(CaseError::Inspection(String::from_str("Account implementation not found")))
    }
}

} // verus!
