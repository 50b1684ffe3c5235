//! Tests for the value validators.

use hotwired_mcp::artifacts::validate_comment_type;
use hotwired_mcp::artifacts::validate_edit_type;
use hotwired_mcp::artifacts::validate_resolve_action;
use hotwired_mcp::artifacts::validate_suggestion_status;
use hotwired_mcp::status::validate_agent_status;
use hotwired_mcp::status::validate_end_response;
use hotwired_mcp::status::validate_end_run_reason;
use hotwired_mcp::status::validate_impediment_type;
use hotwired_mcp::status::validate_status;

#[test]
fn test_validate_edit_type_valid() {
    assert!(validate_edit_type("replace_range").is_ok());
    assert!(validate_edit_type("insert").is_ok());
    assert!(validate_edit_type("append").is_ok());
    assert!(validate_edit_type("full_replace").is_ok());
}

#[test]
fn test_validate_edit_type_invalid() {
    let result = validate_edit_type("invalid_type");
    assert!(result.is_err());
    let err = result.unwrap_err();
    assert!(err.contains("Invalid edit type"));
    assert!(err.contains("invalid_type"));
    assert!(err.contains("replace_range"));
}

#[test]
fn test_validate_edit_type_empty() {
    let result = validate_edit_type("");
    assert!(result.is_err());
}

#[test]
fn test_validate_edit_type_case_sensitive() {
    // Edit types are case-sensitive
    assert!(validate_edit_type("REPLACE_RANGE").is_err());
    assert!(validate_edit_type("Insert").is_err());
}

#[test]
fn test_validate_comment_type_valid() {
    assert!(validate_comment_type("comment").is_ok());
    assert!(validate_comment_type("question").is_ok());
    assert!(validate_comment_type("suggestion").is_ok());
    assert!(validate_comment_type("issue").is_ok());
}

#[test]
fn test_validate_comment_type_invalid() {
    let result = validate_comment_type("feedback");
    assert!(result.is_err());
    let err = result.unwrap_err();
    assert!(err.contains("Invalid comment type"));
    assert!(err.contains("feedback"));
}

#[test]
fn test_validate_resolve_action_valid() {
    assert!(validate_resolve_action("accept").is_ok());
    assert!(validate_resolve_action("reject").is_ok());
    assert!(validate_resolve_action("reply").is_ok());
    assert!(validate_resolve_action("address").is_ok());
    assert!(validate_resolve_action("resolve").is_ok());
}

#[test]
fn test_validate_resolve_action_invalid() {
    let result = validate_resolve_action("dismiss");
    assert!(result.is_err());
    let err = result.unwrap_err();
    assert!(err.contains("Invalid action"));
    assert!(err.contains("dismiss"));
}

#[test]
fn test_validate_suggestion_status_valid() {
    assert!(validate_suggestion_status("pending").is_ok());
    assert!(validate_suggestion_status("accepted").is_ok());
    assert!(validate_suggestion_status("rejected").is_ok());
    assert!(validate_suggestion_status("all").is_ok());
}

#[test]
fn test_validate_suggestion_status_invalid() {
    let result = validate_suggestion_status("waiting");
    assert!(result.is_err());
    let err = result.unwrap_err();
    assert!(err.contains("Invalid status"));
}

#[test]
fn test_validate_status_accepts_valid() {
    assert!(validate_status("working").is_ok());
    assert!(validate_status("thinking").is_ok());
    assert!(validate_status("complete").is_ok());
}

#[test]
fn test_validate_status_rejects_invalid() {
    let result = validate_status("running");
    assert!(result.is_err());
    assert!(result.unwrap_err().contains("running"));
}

#[test]
fn test_validate_agent_status_accepts_valid() {
    assert!(validate_agent_status("active").is_ok());
    assert!(validate_agent_status("blocked").is_ok());
}

#[test]
fn test_validate_agent_status_rejects_invalid() {
    assert!(validate_agent_status("busy").is_err());
}

#[test]
fn test_validate_impediment_type_accepts_valid() {
    assert!(validate_impediment_type("missing_information").is_ok());
    assert!(validate_impediment_type("permission_needed").is_ok());
    assert!(validate_impediment_type("technical_error").is_ok());
    assert!(validate_impediment_type("unclear_requirements").is_ok());
    assert!(validate_impediment_type("dependency_blocked").is_ok());
    assert!(validate_impediment_type("other").is_ok());
}

#[test]
fn test_validate_impediment_type_rejects_invalid() {
    let result = validate_impediment_type("invalid_type");
    assert!(result.is_err());
    assert!(result.unwrap_err().contains("invalid_type"));
}

#[test]
fn test_validate_end_run_reason_accepts_valid() {
    assert!(validate_end_run_reason("completed").is_ok());
    assert!(validate_end_run_reason("scope_changed").is_ok());
    assert!(validate_end_run_reason("pause_requested").is_ok());
    assert!(validate_end_run_reason("error").is_ok());
}

#[test]
fn test_validate_end_run_reason_rejects_invalid() {
    let result = validate_end_run_reason("cancelled");
    assert!(result.is_err());
    assert!(result.unwrap_err().contains("cancelled"));
}

#[test]
fn test_validate_end_response_accepts_valid() {
    assert!(validate_end_response("agree").is_ok());
    assert!(validate_end_response("disagree").is_ok());
    assert!(validate_end_response("verify").is_ok());
}

#[test]
fn test_validate_end_response_rejects_invalid() {
    let result = validate_end_response("maybe");
    assert!(result.is_err());
    assert!(result.unwrap_err().contains("maybe"));
}
