//! Stage checks on the submission's core lending logic.

use vstd::prelude::*;
use vstd::string::*;

use crate::errors::CaseError;
use crate::program_info::{
    any_field_matches, count_lending_ops, spec_any_field_matches, spec_lending_op_count,
    ProgramInfo,
};

verus! {

/// The submission must compute loan-to-value: some declared structure
/// has an LTV- or collateral-related field, or some account type has an
/// LTV-related field.
pub fn test_ltv_calculation(info: &ProgramInfo) -> (r: Result<(), CaseError>)
    ensures
        r is Ok <==> spec_any_field_matches(info.structs@, "ltv"@) || spec_any_field_matches(
            info.structs@,
            "collateral"@,
        ) || spec_any_field_matches(info.accounts@, "ltv"@),
        r is Err ==> (r->Err_0 matches CaseError::Inspection(m) && m@
            == "LTV/health factor not found"@),
{
    let has_ltv = any_field_matches(&info.structs, "ltv") || any_field_matches(
        &info.structs,
        "collateral",
    ) || any_field_matches(&info.accounts, "ltv");
    if has_ltv {
        Ok(())
    } else {
        Err(CaseError::Inspection(String::from_str("LTV/health factor not found")))
    }
}

/// The submission must expose core lending operations: at least two
/// declared operations name borrowing, repayment or lending.
pub fn test_core_practice(info: &ProgramInfo) -> (r: Result<(), CaseError>)
    ensures
        r is Ok <==> spec_lending_op_count(info.instructions@) >= 2,
        r is Err ==> (r->Err_0 matches CaseError::Inspection(m) && m@
            == "Core lending functions not found"@),
{
    let has_lending_fn = count_lending_ops(&info.instructions) >= 2;
    if has_lending_fn {
        Ok(())
    } else {
        Err(CaseError::Inspection(String::from_str("Core lending functions not found")))
    }
}

} // verus!
