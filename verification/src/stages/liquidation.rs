//! Stage checks on the submission's liquidation logic.

use vstd::prelude::*;
use vstd::string::*;

use crate::errors::CaseError;
use crate::program_info::{
    any_field_matches, any_instruction_matches, spec_any_field_matches,
    spec_any_instruction_matches, ProgramInfo,
};

verus! {

/// The submission must track account health: some declared structure or
/// account type has a health-related field.
pub fn test_health_factor(info: &ProgramInfo) -> (r: Result<(), CaseError>)
    ensures
        r is Ok <==> spec_any_field_matches(info.structs@, "health"@) || spec_any_field_matches(
            info.accounts@,
            "health"@,
        ),
        r is Err ==> (r->Err_0 matches CaseError::Inspection(m) && m@
            == "Health factor not found"@),
{
    let has_health = any_field_matches(&info.structs, "health") || any_field_matches(
        &info.accounts,
        "health",
    );
    if has_health {
        Ok(())
    } else {
        Err(CaseError::Inspection(String::from_str("Health factor not found")))
    }
}

/// The submission must decide when to liquidate: some declared structure
/// has a health- or threshold-related field.
pub fn test_liquidation_trigger(info: &ProgramInfo) -> (r: Result<(), CaseError>)
    ensures
        r is Ok <==> spec_any_field_matches(info.structs@, "health"@) || spec_any_field_matches(
            info.structs@,
            "threshold"@,
        ),
        r is Err ==> (r->Err_0 matches CaseError::Inspection(m) && m@
            == "Liquidation trigger not found"@),
{
    let has_liquidate_trigger = any_field_matches(&info.structs, "health") || any_field_matches(
        &info.structs,
        "threshold",
    );
    if has_liquidate_trigger {
        Ok(())
    } else {
        Err(CaseError::Inspection(String::from_str("Liquidation trigger not found")))
    }
}

/// The submission must implement liquidation: some declared operation
/// names it.
pub fn test_liquidation_process(info: &ProgramInfo) -> (r: Result<(), CaseError>)
    ensures
        r is Ok <==> spec_any_instruction_matches(info.instructions@, "liquidate"@),
        r is Err ==> (r->Err_0 matches CaseError::Inspection(m) && m@
            == "Liquidation function not found"@),
{
    let has_liquidate_fn = any_instruction_matches(&info.instructions, "liquidate");
    if has_liquidate_fn {
        Ok(())
    } else {
        Err(CaseError::Inspection(String::from_str("Liquidation function not found")))
    }
}

} // verus!
