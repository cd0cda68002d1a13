//! The subprocess verification protocol.
//!
//! A stage may delegate its correctness check to the submission's own
//! executable entry point, invoked with the stage identifier. The
//! protocol over the completed invocation is interpreted here: a
//! non-zero exit is a hard failure embedding the captured standard
//! error; standard output must parse as a structured verdict, with a
//! parse failure embedding both the parse error and the raw output; and
//! a parsed verdict passes or fails by its own success flag, its details
//! never inspected.

use vstd::prelude::*;
use vstd::string::*;

use crate::errors::CaseError;

verus! {

/// A JSON value of the serde_json crate, opaque to this crate.
#[verifier::external_type_specification]
#[verifier::external_body]
pub struct ExValue(serde_json::Value);

/// The output contract of the external verification process.
#[derive(Debug)]
pub struct VerificationResult {
    /// Whether the check passed.
    pub success: bool,
    /// The explanation reported on failure.
    pub message: String,
    /// Informational payload; never inspected by the dispatcher.
    pub details: serde_json::Value,
}

/// What parsing a verdict text comes to, named but not written out: the
/// outcome is a function of the text alone. `None` where the text is not
/// valid JSON; otherwise the success flag (where present, as a boolean)
/// and the message (where present, as a string).
pub uninterp spec fn json_verdict_of(s: Seq<char>) -> Option<(Option<bool>, Option<Seq<char>>)>;

/// The text with surrounding whitespace removed, named but not written
/// out: a function of the text alone.
pub uninterp spec fn trim_of(s: Seq<char>) -> Seq<char>;

/// Relies on str::trim: removes leading and trailing whitespace, a
/// function of the characters alone.
#[verifier::external_body]
fn trim_str(s: &str) -> (r: String)
    ensures
        r@ == trim_of(s@),
{
    s.trim().to_owned()
}

/// Relies on serde_json's `from_str` and `Value`'s `get`, `as_bool`,
/// `as_str` and `clone`: parses the text as JSON and reads the fields
/// "success" (as a boolean), "message" (as a string) and "details".
#[verifier::external_body]
fn parse_verdict_fields(s: &str) -> (r: Result<
    (Option<bool>, Option<String>, serde_json::Value),
    String,
>)
    ensures
        r is Ok <==> json_verdict_of(s@) is Some,
        r is Ok ==> (r->Ok_0).0 == (json_verdict_of(s@)->0).0,
        r is Ok ==> ((r->Ok_0).1 is Some <==> (json_verdict_of(s@)->0).1 is Some),
        r is Ok && (r->Ok_0).1 is Some ==> (r->Ok_0).1->0@ == (json_verdict_of(s@)->0).1->0,
{
    match serde_json::from_str::<serde_json::Value>(s) {
        Err(e) => Err(format!("{}", e)),
        Ok(v) => {
            let success = v.get("success").and_then(serde_json::Value::as_bool);
            let message = v.get("message").and_then(serde_json::Value::as_str).map(str::to_string);
            let details = v.get("details").cloned().unwrap_or(serde_json::Value::Null);
            Ok((success, message, details))
        },
    }
}

/// Whether a text is a complete verdict, that is, valid JSON holding a
/// boolean success flag and a string message.
pub open spec fn spec_verdict_ok(s: Seq<char>) -> bool {
    &&& json_verdict_of(s) is Some
    &&& (json_verdict_of(s)->0).0 is Some
    &&& (json_verdict_of(s)->0).1 is Some
}

/// The success flag of a well-formed verdict.
pub open spec fn spec_verdict_success(s: Seq<char>) -> bool {
    (json_verdict_of(s)->0).0->0
}

/// The message of a well-formed verdict.
pub open spec fn spec_verdict_message(s: Seq<char>) -> Seq<char> {
    (json_verdict_of(s)->0).1->0
}

/// Parse a verdict text into the strict schema. Fails on invalid JSON
/// with the parse error, and on a missing or mistyped required field
/// with a message saying so.
pub fn parse_verification_result(s: &str) -> (r: Result<VerificationResult, String>)
    ensures
        r is Ok <==> spec_verdict_ok(s@),
        r is Ok ==> r->Ok_0.success == spec_verdict_success(s@),
        r is Ok ==> r->Ok_0.message@ == spec_verdict_message(s@),
        json_verdict_of(s@) is Some && !spec_verdict_ok(s@) ==> (r matches Err(m) && m@
            == "missing or mistyped success or message field"@),
{
    match parse_verdict_fields(s) {
        Err(e) => Err(e),
        Ok((success_opt, message_opt, details)) => {
            match (success_opt, message_opt) {
                (Some(success), Some(message)) => Ok(
                    VerificationResult { success, message, details },
                ),
                _ => Err(String::from_str("missing or mistyped success or message field")),
            }
        },
    }
}

/// What interpreting one completed verification invocation must come to.
pub open spec fn spec_verification_post(
    exit_ok: bool,
    out: Seq<char>,
    err: Seq<char>,
    r: Result<(), CaseError>,
) -> bool {
    &&& !exit_ok ==> (r matches Err(CaseError::Verification(m)) && m@
        == "Verification command failed: "@ + err)
    &&& exit_ok && !spec_verdict_ok(trim_of(out)) ==> (r matches Err(CaseError::Verification(m))
        && (exists|e: Seq<char>| m@ == "Failed to parse JSON: "@ + e + " - "@ + trim_of(out)))
    &&& exit_ok && spec_verdict_ok(trim_of(out)) && spec_verdict_success(trim_of(out)) ==> r
        == Ok::<(), CaseError>(())
    &&& exit_ok && spec_verdict_ok(trim_of(out)) && !spec_verdict_success(trim_of(out)) ==> (
    r matches Err(CaseError::Verification(m)) && m@ == spec_verdict_message(trim_of(out)))
}

/// Interpret one completed verification invocation.
///
/// `exit_ok` says whether the subprocess exited successfully; `stdout`
/// and `stderr` hold what it printed. A non-zero exit fails with the
/// captured standard error embedded verbatim; unparseable output fails
/// with both the parse error and the raw output; a parsed verdict with a
/// false success flag fails with its own message; a true flag passes.
pub fn run_verification(exit_ok: bool, stdout: &str, stderr: &str) -> (r: Result<(), CaseError>)
    ensures
        spec_verification_post(exit_ok, stdout@, stderr@, r),
{
    if !exit_ok {
        return Err(
            CaseError::Verification(
                String::from_str("Verification command failed: ").concat(stderr),
            ),
        );
    }
    let out = trim_str(stdout);
    match parse_verification_result(out.as_str()) {
        Err(e) => Err(
            CaseError::Verification(
                String::from_str("Failed to parse JSON: ").concat(e.as_str()).concat(
                    " - ",
                ).concat(out.as_str()),
            ),
        ),
        Ok(verdict) => {
            if verdict.success {
                Ok(())
            } else {
                Err(CaseError::Verification(verdict.message))
            }
        },
    }
}

} // verus!
