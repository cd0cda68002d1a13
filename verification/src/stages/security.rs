//! Stage checks on the submission's security protections.

use vstd::prelude::*;
use vstd::string::*;

use crate::errors::CaseError;
use crate::program_info::{any_field_matches, spec_any_field_matches, ProgramInfo};

verus! {

/// The submission must guard against reentrancy: some declared account
/// type has a reentrancy-related field.
pub fn test_reentrancy_protection(info: &ProgramInfo) -> (r: Result<(), CaseError>)
    ensures
        r is Ok <==> spec_any_field_matches(info.accounts@, "reentrancy"@),
        r is Err ==> (r->Err_0 matches CaseError::Inspection(m) && m@
            == "Reentrancy protection not found"@),
{
    let has_reentrancy = any_field_matches(&info.accounts, "reentrancy");
    if has_reentrancy {
        Ok(())
    } else {
        Err(CaseError::Inspection(String::from_str("Reentrancy protection not found")))
    }
}

} // verus!
