//! Tests for the protocol and run-status formatters.

use hotwired_mcp::messages::ConnectedAgent;
use hotwired_mcp::messages::GetProtocolResponse;
use hotwired_mcp::messages::GetRunStatusResponse;
use hotwired_mcp::messages::RoleCapabilities;
use hotwired_mcp::protocol::format_protocol_response;
use hotwired_mcp::protocol::format_run_status_response;

fn sample_protocol_response() -> GetProtocolResponse {
    GetProtocolResponse {
        run_id: "test-run-123".into(),
        template_name: "Plan → Build".into(),
        playbook_protocol: Some("Follow these steps...".into()),
        role_protocol: Some("As the strategist, you should...".into()),
        initialization_condition: Some("Build a login page".into()),
        project_name: Some("test-project".into()),
        capabilities: Some(RoleCapabilities { can_resolve_impediments: true }),
    }
}

fn sample_status_response() -> GetRunStatusResponse {
    GetRunStatusResponse {
        run_id: "run-456".into(),
        status: "active".into(),
        phase: "executing".into(),
        template_name: "Plan → Build".into(),
        has_protocol: true,
        connected_agents: vec![
            ConnectedAgent {
                role_id: "strategist".into(),
                session_name: "agent-1".into(),
                agent_type: "cli".into(),
            },
            ConnectedAgent {
                role_id: "builder".into(),
                session_name: "agent-2".into(),
                agent_type: "cli".into(),
            },
        ],
    }
}

#[test]
fn test_format_protocol_includes_all_sections() {
    let response = sample_protocol_response();
    let formatted = format_protocol_response(&response);

    assert!(formatted.contains("test-run-123"), "Should include run ID");
    assert!(formatted.contains("Plan → Build"), "Should include template name");
    assert!(formatted.contains("Follow these steps"), "Should include protocol");
    assert!(formatted.contains("As the strategist"), "Should include role instructions");
    assert!(formatted.contains("Build a login page"), "Should include init condition");
}

#[test]
fn test_format_protocol_uses_markdown() {
    let response = sample_protocol_response();
    let formatted = format_protocol_response(&response);

    assert!(formatted.contains("# "), "Should use markdown headers");
    assert!(formatted.contains("**Run ID:**"), "Should use bold formatting");
}

#[test]
fn test_format_protocol_includes_capabilities() {
    let response = sample_protocol_response();
    let formatted = format_protocol_response(&response);

    assert!(
        formatted.contains("## Your Capabilities"),
        "Should include capabilities section"
    );
    assert!(
        formatted.contains("Can resolve impediments"),
        "Should mention resolve impediments capability"
    );
}

#[test]
fn test_format_protocol_no_capabilities_section_when_none() {
    let response = GetProtocolResponse {
        run_id: "test-run".into(),
        template_name: "Test".into(),
        playbook_protocol: Some("Protocol".into()),
        role_protocol: None,
        initialization_condition: None,
        project_name: None,
        capabilities: Some(RoleCapabilities { can_resolve_impediments: false }),
    };
    let formatted = format_protocol_response(&response);

    assert!(
        !formatted.contains("## Your Capabilities"),
        "Should NOT include capabilities section when no capabilities"
    );
}

#[test]
fn test_format_status_shows_connected_agents() {
    let response = sample_status_response();
    let formatted = format_run_status_response(&response);

    assert!(formatted.contains("agent-1"));
    assert!(formatted.contains("agent-2"));
    assert!(formatted.contains("strategist"));
    assert!(formatted.contains("builder"));
    assert!(formatted.contains("Connected Agents"));
}

#[test]
fn test_format_status_handles_no_agents() {
    let response = GetRunStatusResponse {
        run_id: "run-456".into(),
        status: "active".into(),
        phase: "executing".into(),
        template_name: "Plan → Build".into(),
        has_protocol: false,
        connected_agents: vec![],
    };

    let formatted = format_run_status_response(&response);

    assert!(formatted.contains("(no agents connected)"));
}
