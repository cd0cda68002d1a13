//! Stage checks on the submission's treasury handling.

use vstd::prelude::*;
use vstd::string::*;

use crate::errors::CaseError;
use crate::program_info::{
    any_field_matches, any_name_matches, spec_any_field_matches, spec_any_name_matches,
    ProgramInfo,
};

verus! {

/// The submission must name a treasury: some declared account type or
/// structure carries the name.
pub fn test_treasury_intro(info: &ProgramInfo) -> (r: Result<(), CaseError>)
    ensures
        r is Ok <==> spec_any_name_matches(info.accounts@, "treasury"@) || spec_any_name_matches(
            info.structs@,
            "treasury"@,
        ),
        r is Err ==> (r->Err_0 matches CaseError::Inspection(m) && m@
            == "Treasury code not found"@),
{
    let has_treasury = any_name_matches(&info.accounts, "treasury") || any_name_matches(
        &info.structs,
        "treasury",
    );
    if has_treasury {
        Ok(())
    } else {
        Err(CaseError::Inspection(String::from_str("Treasury code not found")))
    }
}

/// The submission must create a treasury account type.
pub fn test_treasury_creation(info: &ProgramInfo) -> (r: Result<(), CaseError>)
    ensures
        r is Ok <==> spec_any_name_matches(info.accounts@, "treasury"@),
        r is Err ==> (r->Err_0 matches CaseError::Inspection(m) && m@
            == "Treasury creation not found"@),
{
    let has_treasury_init = any_name_matches(&info.accounts, "treasury");
    if has_treasury_init {
        Ok(())
    } else {
        Err(CaseError::Inspection(String::from_str("Treasury creation not found")))
    }
}

/// The submission must guard its treasury: some declared account type
/// has an owner-related field.
pub fn test_treasury_security(info: &ProgramInfo) -> (r: Result<(), CaseError>)
    ensures
        r is Ok <==> spec_any_field_matches(info.accounts@, "owner"@),
        r is Err ==> (r->Err_0 matches CaseError::Inspection(m) && m@
            == "Treasury security not found"@),
{
    let has_owner = any_field_matches(&info.accounts, "owner");
    if has_owner {
        Ok(())
    } else {
        Err(CaseError::Inspection(String::from_str("Treasury security not found")))
    }
}

} // verus!
