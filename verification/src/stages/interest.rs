//! Stage checks on the submission's interest handling.

use vstd::prelude::*;
use vstd::string::*;

use crate::errors::CaseError;
use crate::program_info::{any_field_matches, spec_any_field_matches, ProgramInfo};

verus! {

/// The submission must track interest: some declared structure or
/// account type has an interest-like field.
pub fn test_interest_basics(info: &ProgramInfo) -> (r: Result<(), CaseError>)
    ensures
        r is Ok <==> spec_any_field_matches(info.structs@, "interest"@) || spec_any_field_matches(
            info.accounts@,
            "interest"@,
        ),
        r is Err ==> (r->Err_0 matches CaseError::Inspection(m) && m@
            == "Interest code not found"@),
{
    let has_interest = any_field_matches(&info.structs, "interest") || any_field_matches(
        &info.accounts,
        "interest",
    );
    if has_interest {
        Ok(())
    } else {
        Err(CaseError::Inspection(String::from_str("Interest code not found")))
    }
}

/// The submission must accrue interest: some declared structure has an
/// accrual-related field.
pub fn test_accrued_interest(info: &ProgramInfo) -> (r: Result<(), CaseError>)
    ensures
        r is Ok <==> spec_any_field_matches(info.structs@, "accrue"@),
        r is Err ==> (r->Err_0 matches CaseError::Inspection(m) && m@
            == "Accrued interest not found"@),
{
    let has_accrue = any_field_matches(&info.structs, "accrue");
    if has_accrue {
        Ok(())
    } else {
        Err(CaseError::Inspection(String::from_str("Accrued interest not found")))
    }
}

} // verus!
