//! Validators for status, impediment and end-run reporting.
//!
//! Each validator accepts exactly the closed set of values the protocol
//! defines and, for anything else, returns the message naming the value and
//! the accepted set.

use vstd::prelude::*;

use crate::strfmt::invalid_value_msg;
use crate::strfmt::str_eq;

verus! {

/// Accept exactly the working statuses an agent may report.
pub fn validate_status(status: &str) -> (r: Result<(), String>)
    ensures
        r is Ok <==> (status@ == "working"@ || status@ == "thinking"@ || status@ == "waiting"@
            || status@ == "idle"@ || status@ == "complete"@),
        r is Err ==> r->Err_0@ == "Invalid status '"@ + status@ + "'. Must be one of: "@
            + "working, thinking, waiting, idle, complete"@,
{
    if str_eq(status, "working") || str_eq(status, "thinking") || str_eq(status, "waiting")
        || str_eq(status, "idle") || str_eq(status, "complete") {
        Ok(())
    } else {
        Err(
            invalid_value_msg(
                "Invalid status '",
                status,
                "working, thinking, waiting, idle, complete",
            ),
        )
    }
}

/// Accept exactly the agent statuses used for dashboard indicators.
pub fn validate_agent_status(status: &str) -> (r: Result<(), String>)
    ensures
        r is Ok <==> (status@ == "active"@ || status@ == "awaiting_response"@ || status@
            == "blocked"@ || status@ == "idle"@),
        r is Err ==> r->Err_0@ == "Invalid agent status '"@ + status@ + "'. Must be one of: "@
            + "active, awaiting_response, blocked, idle"@,
{
    if str_eq(status, "active") || str_eq(status, "awaiting_response") || str_eq(status, "blocked")
        || str_eq(status, "idle") {
        Ok(())
    } else {
        Err(
            invalid_value_msg(
                "Invalid agent status '",
                status,
                "active, awaiting_response, blocked, idle",
            ),
        )
    }
}

/// Accept exactly the impediment types.
pub fn validate_impediment_type(impediment_type: &str) -> (r: Result<(), String>)
    ensures
        r is Ok <==> (impediment_type@ == "missing_information"@ || impediment_type@
            == "permission_needed"@ || impediment_type@ == "technical_error"@ || impediment_type@
            == "unclear_requirements"@ || impediment_type@ == "dependency_blocked"@
            || impediment_type@ == "other"@),
        r is Err ==> r->Err_0@ == "Invalid impediment type '"@ + impediment_type@
            + "'. Must be one of: "@
            + "missing_information, permission_needed, technical_error, unclear_requirements, dependency_blocked, other"@,
{
    if str_eq(impediment_type, "missing_information") || str_eq(impediment_type, "permission_needed")
        || str_eq(impediment_type, "technical_error") || str_eq(
        impediment_type,
        "unclear_requirements",
    ) || str_eq(impediment_type, "dependency_blocked") || str_eq(impediment_type, "other") {
        Ok(())
    } else {
        Err(
            invalid_value_msg(
                "Invalid impediment type '",
                impediment_type,
                "missing_information, permission_needed, technical_error, unclear_requirements, dependency_blocked, other",
            ),
        )
    }
}

/// Accept exactly the reasons for ending a run.
pub fn validate_end_run_reason(reason: &str) -> (r: Result<(), String>)
    ensures
        r is Ok <==> (reason@ == "completed"@ || reason@ == "scope_changed"@ || reason@
            == "pause_requested"@ || reason@ == "error"@),
        r is Err ==> r->Err_0@ == "Invalid reason '"@ + reason@ + "'. Must be one of: "@
            + "completed, scope_changed, pause_requested, error"@,
{
    if str_eq(reason, "completed") || str_eq(reason, "scope_changed") || str_eq(
        reason,
        "pause_requested",
    ) || str_eq(reason, "error") {
        Ok(())
    } else {
        Err(
            invalid_value_msg(
                "Invalid reason '",
                reason,
                "completed, scope_changed, pause_requested, error",
            ),
        )
    }
}

/// Accept exactly the responses to an end-run request.
pub fn validate_end_response(response: &str) -> (r: Result<(), String>)
    ensures
        r is Ok <==> (response@ == "agree"@ || response@ == "disagree"@ || response@
            == "verify"@),
        r is Err ==> r->Err_0@ == "Invalid response '"@ + response@ + "'. Must be one of: "@
            + "agree, disagree, verify"@,
{
    if str_eq(response, "agree") || str_eq(response, "disagree") || str_eq(response, "verify") {
        Ok(())
    } else {
        Err(invalid_value_msg("Invalid response '", response, "agree, disagree, verify"))
    }
}

} // verus!
