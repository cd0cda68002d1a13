//! Stage checks on the submission's use of program-derived addresses.

use vstd::prelude::*;
use vstd::string::*;

use crate::errors::CaseError;
use crate::program_info::{
    any_field_matches, any_instruction_matches, any_name_matches, spec_any_field_matches,
    spec_any_instruction_matches, spec_any_name_matches, ProgramInfo,
};

verus! {

/// The submission must name the concept: some declared account type is
/// named after derived addresses or bump seeds, or some structure is.
pub fn test_pda_concept(info: &ProgramInfo) -> (r: Result<(), CaseError>)
    ensures
        r is Ok <==> spec_any_name_matches(info.accounts@, "pda"@) || spec_any_name_matches(
            info.accounts@,
            "bump"@,
        ) || spec_any_name_matches(info.structs@, "pda"@),
        r is Err ==> (r->Err_0 matches CaseError::Inspection(m) && m@ == "PDA code not found"@),
{
    let has_pda = any_name_matches(&info.accounts, "pda") || any_name_matches(
        &info.accounts,
        "bump",
    ) || any_name_matches(&info.structs, "pda");
    if has_pda {
        Ok(())
    } else {
        Err(CaseError::Inspection(String::from_str("PDA code not found")))
    }
}

/// The submission must store bump seeds: some declared account type has
/// a bump-related field.
pub fn test_pda_bump_seeds(info: &ProgramInfo) -> (r: Result<(), CaseError>)
    ensures
        r is Ok <==> spec_any_field_matches(info.accounts@, "bump"@),
        r is Err ==> (r->Err_0 matches CaseError::Inspection(m) && m@ == "Bump seeds not found"@),
{
    let has_bump = any_field_matches(&info.accounts, "bump");
    if has_bump {
        Ok(())
    } else {
        Err(CaseError::Inspection(String::from_str("Bump seeds not found")))
    }
}

/// The submission must exercise derived addresses: some declared account
/// type or operation names them.
pub fn test_pda_practice(info: &ProgramInfo) -> (r: Result<(), CaseError>)
    ensures
        r is Ok <==> spec_any_name_matches(info.accounts@, "pda"@) || spec_any_instruction_matches(
            info.instructions@,
            "pda"@,
        ),
        r is Err ==> (r->Err_0 matches CaseError::Inspection(m) && m@ == "PDA practice not found"@),
{
    let has_pda_practice = any_name_matches(&info.accounts, "pda") || any_instruction_matches(
        &info.instructions,
        "pda",
    );
    if has_pda_practice {
        Ok(())
    } else {
        Err(CaseError::Inspection(String::from_str("PDA practice not found")))
    }
}

} // verus!
