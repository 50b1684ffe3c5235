//! Tests for the terminal workflow formatters.

use hotwired_mcp::messages::ActiveRun;
use hotwired_mcp::messages::HotwireNeedsConfirmation;
use hotwired_mcp::messages::HotwireResponse;
use hotwired_mcp::messages::HotwireStarted;
use hotwired_mcp::messages::ListActiveRunsResponse;
use hotwired_mcp::messages::ListPlaybooksResponse;
use hotwired_mcp::messages::PairJoined;
use hotwired_mcp::messages::PairNeedsSelection;
use hotwired_mcp::messages::PairProjectMismatch;
use hotwired_mcp::messages::PairResponse;
use hotwired_mcp::messages::PairingContext;
use hotwired_mcp::messages::PendingPairRun;
use hotwired_mcp::messages::PlaybookInfo;
use hotwired_mcp::messages::PlaybookInitHints;
use hotwired_mcp::messages::PlaybookRoleInfo;
use hotwired_mcp::terminal::format_active_runs;
use hotwired_mcp::terminal::format_hotwire_response;
use hotwired_mcp::terminal::format_pair_response;
use hotwired_mcp::terminal::format_playbooks;

fn sample_hotwire_started() -> HotwireResponse {
    HotwireResponse::Started(HotwireStarted {
        run_id: "run-123".to_string(),
        role: "writer".to_string(),
        playbook: "doc-editor".to_string(),
        protocol: "# Protocol\n\nYour instructions here...".to_string(),
    })
}

fn sample_hotwire_needs_confirmation() -> HotwireResponse {
    HotwireResponse::NeedsConfirmation(HotwireNeedsConfirmation {
        pending_run_id: "pending-456".to_string(),
        suggested_playbook: Some("doc-editor".to_string()),
        message: "Please confirm the workflow configuration.".to_string(),
    })
}

#[test]
fn test_format_hotwire_started() {
    let response = sample_hotwire_started();
    let formatted = format_hotwire_response(&response);

    assert!(formatted.contains("WORKFLOW STARTED"));
    assert!(formatted.contains("run-123"));
    assert!(formatted.contains("doc-editor"));
    assert!(formatted.contains("writer"));
    assert!(formatted.contains("PRIMARY AGENT"));
}

#[test]
fn test_format_hotwire_needs_confirmation() {
    let response = sample_hotwire_needs_confirmation();
    let formatted = format_hotwire_response(&response);

    assert!(formatted.contains("CONFIRMATION NEEDED"));
    assert!(formatted.contains("pending-456"));
    assert!(formatted.contains("doc-editor"));
    assert!(formatted.contains("confirm the workflow"));
}

fn sample_pair_joined() -> PairResponse {
    PairResponse::Joined(PairJoined {
        run_id: "run-789".to_string(),
        role: "critiquer".to_string(),
        role_name: "Critiquer".to_string(),
        playbook: "doc-editor".to_string(),
        protocol: "# Critiquer Protocol\n\nCritique the document...".to_string(),
        context: PairingContext {
            primary_status: "Writing section 3".to_string(),
            current_artifact: Some("docs/prd.md".to_string()),
            conversation_summary: "Writer has completed intro and section 1-2.".to_string(),
        },
    })
}

fn sample_pair_needs_selection() -> PairResponse {
    PairResponse::NeedsSelection(PairNeedsSelection {
        pending_runs: vec![
            PendingPairRun {
                run_id: "run-1".to_string(),
                playbook: "doc-editor".to_string(),
                intent: "Write PRD for auth".to_string(),
                role_needed: "critiquer".to_string(),
            },
            PendingPairRun {
                run_id: "run-2".to_string(),
                playbook: "plan-build".to_string(),
                intent: "Implement login".to_string(),
                role_needed: "builder".to_string(),
            },
        ],
        message: "Multiple runs need a second agent.".to_string(),
    })
}

#[test]
fn test_format_pair_joined() {
    let response = sample_pair_joined();
    let formatted = format_pair_response(&response);

    assert!(formatted.contains("JOINED WORKFLOW"));
    assert!(formatted.contains("run-789"));
    assert!(formatted.contains("Critiquer"));
    assert!(formatted.contains("SECONDARY AGENT"));
    assert!(formatted.contains("Writing section 3"));
    assert!(formatted.contains("docs/prd.md"));
}

#[test]
fn test_format_pair_needs_selection() {
    let response = sample_pair_needs_selection();
    let formatted = format_pair_response(&response);

    assert!(formatted.contains("SELECTION NEEDED"));
    assert!(formatted.contains("run-1"));
    assert!(formatted.contains("run-2"));
    assert!(formatted.contains("critiquer"));
    assert!(formatted.contains("builder"));
}

#[test]
fn test_format_pair_project_mismatch() {
    let response = PairResponse::ProjectMismatch(PairProjectMismatch {
        required_path: "/correct/path".to_string(),
        current_path: "/wrong/path".to_string(),
        message: "Project paths don't match.".to_string(),
    });
    let formatted = format_pair_response(&response);

    assert!(formatted.contains("PROJECT MISMATCH"));
    assert!(formatted.contains("/correct/path"));
    assert!(formatted.contains("/wrong/path"));
}

fn sample_active_runs() -> ListActiveRunsResponse {
    ListActiveRunsResponse {
        runs: vec![
            ActiveRun {
                run_id: "run-a".to_string(),
                playbook: "doc-editor".to_string(),
                intent: "Write PRD".to_string(),
                status: "active".to_string(),
                my_role: Some("writer".to_string()),
                created_at: "2024-01-15T10:00:00Z".to_string(),
            },
            ActiveRun {
                run_id: "run-b".to_string(),
                playbook: "plan-build".to_string(),
                intent: "Implement auth".to_string(),
                status: "paused".to_string(),
                my_role: None,
                created_at: "2024-01-15T11:00:00Z".to_string(),
            },
        ],
    }
}

#[test]
fn test_format_active_runs() {
    let response = sample_active_runs();
    let formatted = format_active_runs(&response);

    assert!(formatted.contains("ACTIVE RUNS"));
    assert!(formatted.contains("run-a"));
    assert!(formatted.contains("run-b"));
    assert!(formatted.contains("your role: writer"));
    assert!(formatted.contains("doc-editor"));
}

#[test]
fn test_format_active_runs_empty() {
    let response = ListActiveRunsResponse { runs: vec![] };
    let formatted = format_active_runs(&response);

    assert!(formatted.contains("No active runs found"));
}

fn sample_playbooks() -> ListPlaybooksResponse {
    ListPlaybooksResponse {
        playbooks: vec![PlaybookInfo {
            id: "doc-editor".to_string(),
            name: "Document Editor".to_string(),
            tagline: "Create and edit documents collaboratively".to_string(),
            description: "A workflow for writing documents with AI assistance.".to_string(),
            artifact_mode: true,
            roles: vec![
                PlaybookRoleInfo {
                    id: "writer".to_string(),
                    name: "Writer".to_string(),
                    description: "Creates and edits the document".to_string(),
                    is_initiating: true,
                },
                PlaybookRoleInfo {
                    id: "critiquer".to_string(),
                    name: "Critiquer".to_string(),
                    description: "Critiques and suggests improvements".to_string(),
                    is_initiating: false,
                },
            ],
            best_for: vec!["PRDs".to_string(), "specs".to_string()],
            keywords: vec!["write".to_string(), "document".to_string(), "prd".to_string()],
            initialization: PlaybookInitHints {
                expects_document: true,
                expects_goal: false,
                suggested_paths: vec!["docs/".to_string()],
            },
        }],
    }
}

#[test]
fn test_format_playbooks() {
    let response = sample_playbooks();
    let formatted = format_playbooks(&response);

    assert!(formatted.contains("AVAILABLE PLAYBOOKS"));
    assert!(formatted.contains("Document Editor"));
    assert!(formatted.contains("doc-editor"));
    assert!(formatted.contains("Writer"));
    assert!(formatted.contains("[INITIATING]"));
    assert!(formatted.contains("PRDs, specs"));
    assert!(formatted.contains("write, document, prd"));
}
