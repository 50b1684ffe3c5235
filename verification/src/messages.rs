//! Request and response shapes of the tool layer.
//!
//! Plain data carried between the engine, its callers and the formatters:
//! every field is a string, an integer, a boolean, or an option or list of
//! those. Transport encodings of these shapes live outside the library.

use vstd::prelude::*;

verus! {

/// Request to register an active editor session.
#[derive(Debug, Clone)]
pub struct RegisterSessionRequest {
    pub session_name: String,
    pub project_dir: String,
}

/// Response to session registration.
#[derive(Debug, Clone)]
pub struct RegisterSessionResponse {
    pub success: bool,
}

/// Request to deregister a session.
#[derive(Debug, Clone)]
pub struct DeregisterSessionRequest {
    pub session_name: String,
}

/// Response to session deregistration.
#[derive(Debug, Clone)]
pub struct DeregisterSessionResponse {
    pub success: bool,
}

/// Request to list active sessions.
#[derive(Debug, Clone)]
pub struct ListActiveSessionsRequest {}

/// Information about an active session.
#[derive(Debug, Clone)]
pub struct ActiveSessionInfo {
    pub session_name: String,
    pub project_dir: String,
    pub registered_at: i64,
}

/// Response with the list of active sessions.
#[derive(Debug, Clone)]
pub struct ListActiveSessionsResponse {
    pub sessions: Vec<ActiveSessionInfo>,
}

/// Request for the protocol of a run and role.
#[derive(Debug, Clone)]
pub struct GetProtocolRequest {
    pub run_id: String,
    pub agent_role: String,
}

/// The socket-facing form of the protocol request.
#[derive(Debug, Clone)]
pub struct GetProtocolSocketRequest {
    pub run_id: String,
    pub role: String,
}

/// Capabilities granted to a role.
#[derive(Debug, Clone)]
pub struct RoleCapabilities {
    pub can_resolve_impediments: bool,
}

/// Response with protocol content.
#[derive(Debug, Clone)]
pub struct GetProtocolResponse {
    pub run_id: String,
    pub template_name: String,
    pub playbook_protocol: Option<String>,
    pub role_protocol: Option<String>,
    pub initialization_condition: Option<String>,
    pub project_name: Option<String>,
    pub capabilities: Option<RoleCapabilities>,
}

/// Request for the status of a run.
#[derive(Debug, Clone)]
pub struct GetRunStatusRequest {
    pub run_id: String,
}

/// A connected agent in a run.
#[derive(Debug, Clone)]
pub struct ConnectedAgent {
    pub role_id: String,
    pub session_name: String,
    pub agent_type: String,
}

/// Response with the status of a run.
#[derive(Debug, Clone)]
pub struct GetRunStatusResponse {
    pub run_id: String,
    pub status: String,
    pub phase: String,
    pub template_name: String,
    pub has_protocol: bool,
    pub connected_agents: Vec<ConnectedAgent>,
}

/// Request to report an agent's working status.
#[derive(Debug, Clone)]
pub struct ReportStatusRequest {
    pub run_id: String,
    pub status: String,
    pub message: String,
    pub source: String,
    pub agent_status: Option<String>,
}

/// Response to a status report.
#[derive(Debug, Clone)]
pub struct ReportStatusResponse {
    pub success: bool,
}

/// Request to send a message to other agents or the user.
#[derive(Debug, Clone)]
pub struct SendMessageRequest {
    pub run_id: String,
    pub content: String,
    pub source: String,
    pub target: Option<String>,
    pub agent_status: Option<String>,
}

/// Response to a sent message.
#[derive(Debug, Clone)]
pub struct SendMessageResponse {
    pub success: bool,
    pub event_id: String,
}

/// Request to mark a task as complete.
#[derive(Debug, Clone)]
pub struct TaskCompleteRequest {
    pub run_id: String,
    pub task_description: String,
    pub source: String,
    pub outcome: Option<String>,
    pub agent_status: Option<String>,
}

/// Response to a task-complete report.
#[derive(Debug, Clone)]
pub struct TaskCompleteResponse {
    pub success: bool,
}

/// One option of a radio, checkbox or select field.
#[derive(Debug, Clone)]
pub struct ResponseFormatOption {
    pub value: String,
    pub label: String,
}

/// A field in a response format form.
#[derive(Debug, Clone)]
pub struct ResponseFormatField {
    pub id: String,
    pub field_type: String,
    pub label: String,
    pub description: Option<String>,
    pub required: Option<bool>,
    pub options: Option<Vec<ResponseFormatOption>>,
}

/// A schema defining how a human should respond to an impediment.
#[derive(Debug, Clone)]
pub struct ResponseFormat {
    pub fields: Vec<ResponseFormatField>,
}

/// Request to report an impediment.
#[derive(Debug, Clone)]
pub struct ReportImpedimentRequest {
    pub run_id: String,
    pub impediment_type: String,
    pub description: String,
    pub source: String,
    pub context: Option<String>,
    pub suggestion: Option<String>,
    pub agent_status: Option<String>,
    pub response_format: Option<ResponseFormat>,
}

/// Response to an impediment report.
#[derive(Debug, Clone)]
pub struct ReportImpedimentResponse {
    pub success: bool,
}

/// Response to resolving an impediment.
#[derive(Debug, Clone)]
pub struct ResolveImpedimentResponse {
    pub success: bool,
    pub error: Option<String>,
}

/// Request for input from the human user.
#[derive(Debug, Clone)]
pub struct RequestInputRequest {
    pub run_id: String,
    pub question: String,
    pub source: String,
    pub context: Option<String>,
    pub options: Option<Vec<String>>,
}

/// Response to an input request.
#[derive(Debug, Clone)]
pub struct RequestInputResponse {
    pub success: bool,
}

/// Request to hand work off to another agent.
#[derive(Debug, Clone)]
pub struct HandoffRequest {
    pub run_id: String,
    pub to: String,
    pub summary: String,
    pub source: String,
    pub details: Option<String>,
    pub artifacts: Option<Vec<String>>,
}

/// Response to a handoff.
#[derive(Debug, Clone)]
pub struct HandoffResponse {
    pub success: bool,
}

/// A suggested follow-up task for after a run ends.
#[derive(Debug, Clone)]
pub struct SuggestedFollowUp {
    pub title: String,
    pub description: String,
}

/// Request to end a run.
#[derive(Debug, Clone)]
pub struct RequestEndRunRequest {
    pub run_id: String,
    pub reason: String,
    pub description: String,
    pub source: String,
    pub suggested_follow_up: Option<SuggestedFollowUp>,
}

/// Response to an end-run request.
#[derive(Debug, Clone)]
pub struct RequestEndRunResponse {
    pub success: bool,
    pub request_id: String,
}

/// Request to respond to another agent's end-run request.
#[derive(Debug, Clone)]
pub struct RespondToEndRequestRequest {
    pub run_id: String,
    pub request_id: String,
    pub response: String,
    pub source: String,
    pub reason: Option<String>,
}

/// Response to an end-request response.
#[derive(Debug, Clone)]
pub struct RespondToEndRequestResponse {
    pub success: bool,
}

/// Request to list the artifacts of a run.
#[derive(Debug, Clone)]
pub struct DocArtifactListRequest {
    pub run_id: String,
}

/// An artifact summary for listing.
#[derive(Debug, Clone)]
pub struct ArtifactSummary {
    pub id: String,
    pub filename: String,
    pub document_type: String,
    pub total_lines: i64,
    pub content_hash: String,
    pub created_at: String,
    pub updated_at: String,
}

/// Response with the artifacts of a run.
#[derive(Debug, Clone)]
pub struct DocArtifactListResponse {
    pub run_id: String,
    pub artifacts: Vec<ArtifactSummary>,
}

/// Request to read an artifact with pagination.
#[derive(Debug, Clone)]
pub struct DocArtifactReadRequest {
    pub run_id: String,
    pub artifact_id: String,
    pub offset: Option<i64>,
    pub limit: Option<i64>,
    pub include_comments: Option<bool>,
}

/// An inline comment marker for a read response.
#[derive(Debug, Clone)]
pub struct InlineComment {
    pub id: String,
    pub comment_type: String,
    pub status: String,
    pub line_number: i64,
    pub author: String,
    pub preview: String,
}

/// Response to reading an artifact.
#[derive(Debug, Clone)]
pub struct DocArtifactReadResponse {
    pub artifact_id: String,
    pub filename: String,
    pub content: String,
    pub content_hash: String,
    pub total_lines: i64,
    pub returned_lines: i64,
    pub offset: i64,
    pub has_more: bool,
    pub comments: Option<Vec<InlineComment>>,
}

/// Request to create an artifact.
#[derive(Debug, Clone)]
pub struct DocArtifactCreateRequest {
    pub run_id: String,
    pub filename: String,
    pub initial_content: Option<String>,
    pub document_type: Option<String>,
    pub created_by: Option<String>,
}

/// Response to creating an artifact.
#[derive(Debug, Clone)]
pub struct DocArtifactCreateResponse {
    pub artifact_id: String,
    pub filename: String,
    pub content_hash: String,
}

/// Request to edit an artifact.
#[derive(Debug, Clone)]
pub struct DocArtifactEditRequest {
    pub run_id: String,
    pub artifact_id: String,
    pub edit_type: String,
    pub content_hash: String,
    pub new_content: String,
    pub start_offset: Option<i64>,
    pub end_offset: Option<i64>,
    pub insert_offset: Option<i64>,
    pub edit_reason: Option<String>,
    pub source: Option<String>,
}

/// Conflict details when an edit fails the hash check.
#[derive(Debug, Clone)]
pub struct EditConflict {
    pub expected_hash: String,
    pub actual_hash: String,
    pub message: String,
}

/// Response to an edit.
#[derive(Debug, Clone)]
pub struct DocArtifactEditResponse {
    pub success: bool,
    pub artifact_id: String,
    pub new_content_hash: String,
    pub edit_id: String,
    pub affected_comments: Vec<String>,
    pub conflict: Option<EditConflict>,
}

/// Request to search within an artifact.
#[derive(Debug, Clone)]
pub struct DocArtifactSearchRequest {
    pub run_id: String,
    pub artifact_id: String,
    pub query: String,
    pub match_type: Option<String>,
    pub scope: Option<String>,
    pub context_lines: Option<i64>,
    pub max_results: Option<i64>,
}

/// One search match.
#[derive(Debug, Clone)]
pub struct SearchMatch {
    pub line_number: i64,
    pub char_start: i64,
    pub char_end: i64,
    pub match_text: String,
    pub context: String,
    pub section: Option<String>,
}

/// Response to a search.
#[derive(Debug, Clone)]
pub struct DocArtifactSearchResponse {
    pub artifact_id: String,
    pub query: String,
    pub total_matches: i64,
    pub results: Vec<SearchMatch>,
}

/// Request to add a comment to an artifact.
#[derive(Debug, Clone)]
pub struct DocArtifactAddCommentRequest {
    pub run_id: String,
    pub artifact_id: String,
    pub comment_type: String,
    pub selection_start: i64,
    pub selection_end: i64,
    pub content: String,
    pub suggested_text: Option<String>,
    pub author: String,
    pub parent_comment_id: Option<String>,
}

/// Response to adding a comment.
#[derive(Debug, Clone)]
pub struct DocArtifactAddCommentResponse {
    pub comment_id: String,
    pub artifact_id: String,
    pub selection_text: String,
}

/// Request to resolve or respond to a comment.
#[derive(Debug, Clone)]
pub struct DocArtifactResolveCommentRequest {
    pub run_id: String,
    pub artifact_id: String,
    pub comment_id: String,
    pub action: String,
    pub response: Option<String>,
    pub resolved_by: String,
}

/// Response to resolving a comment.
#[derive(Debug, Clone)]
pub struct DocArtifactResolveCommentResponse {
    pub success: bool,
    pub comment_id: String,
    pub new_status: String,
}

/// Request to list the comments on an artifact.
#[derive(Debug, Clone)]
pub struct DocArtifactListCommentsRequest {
    pub run_id: String,
    pub artifact_id: String,
    pub status: Option<String>,
    pub comment_type: Option<String>,
    pub line_start: Option<i64>,
    pub line_end: Option<i64>,
}

/// Full comment details for listing.
#[derive(Debug, Clone)]
pub struct CommentDetail {
    pub id: String,
    pub comment_type: String,
    pub status: String,
    pub selection_start: i64,
    pub selection_end: i64,
    pub selection_text: Option<String>,
    pub content: String,
    pub suggested_text: Option<String>,
    pub author: String,
    pub resolved_by: Option<String>,
    pub resolved_at: Option<String>,
    pub resolution_note: Option<String>,
    pub created_at: String,
}

/// Response with the comments on an artifact.
#[derive(Debug, Clone)]
pub struct DocArtifactListCommentsResponse {
    pub artifact_id: String,
    pub comments: Vec<CommentDetail>,
}

/// Request to suggest an edit linked to a comment.
#[derive(Debug, Clone)]
pub struct DocArtifactSuggestEditRequest {
    pub run_id: String,
    pub artifact_id: String,
    pub comment_id: String,
    pub edit_type: String,
    pub start_offset: Option<i64>,
    pub end_offset: Option<i64>,
    pub suggested_text: String,
    pub rationale: Option<String>,
    pub source: String,
}

/// Response to suggesting an edit.
#[derive(Debug, Clone)]
pub struct DocArtifactSuggestEditResponse {
    pub suggestion_id: String,
    pub comment_id: String,
    pub artifact_id: String,
}

/// Request to accept a suggestion.
#[derive(Debug, Clone)]
pub struct DocArtifactAcceptSuggestionRequest {
    pub run_id: String,
    pub artifact_id: String,
    pub suggestion_id: String,
    pub source: String,
}

/// Response to accepting a suggestion.
#[derive(Debug, Clone)]
pub struct DocArtifactAcceptSuggestionResponse {
    pub success: bool,
    pub suggestion_id: String,
    pub new_content_hash: String,
    pub resolved_comments: Vec<String>,
}

/// Request to reject a suggestion.
#[derive(Debug, Clone)]
pub struct DocArtifactRejectSuggestionRequest {
    pub run_id: String,
    pub artifact_id: String,
    pub suggestion_id: String,
    pub reason: Option<String>,
    pub source: String,
}

/// Response to rejecting a suggestion.
#[derive(Debug, Clone)]
pub struct DocArtifactRejectSuggestionResponse {
    pub success: bool,
    pub suggestion_id: String,
}

/// Request to list the suggestions on an artifact.
#[derive(Debug, Clone)]
pub struct DocArtifactListSuggestionsRequest {
    pub run_id: String,
    pub artifact_id: String,
    pub status: Option<String>,
}

/// Full suggestion details for listing.
#[derive(Debug, Clone)]
pub struct SuggestionDetail {
    pub id: String,
    pub comment_id: String,
    pub artifact_id: String,
    pub suggested_by: String,
    pub edit_type: String,
    pub start_offset: Option<i64>,
    pub end_offset: Option<i64>,
    pub original_text: Option<String>,
    pub suggested_text: String,
    pub rationale: Option<String>,
    pub status: String,
    pub accepted_by: Option<String>,
    pub accepted_at: Option<String>,
    pub rejection_reason: Option<String>,
    pub created_at: String,
    pub updated_at: String,
}

/// Response with the suggestions on an artifact.
#[derive(Debug, Clone)]
pub struct DocArtifactListSuggestionsResponse {
    pub artifact_id: String,
    pub suggestions: Vec<SuggestionDetail>,
}

/// An artifact suggestion for run bootstrapping.
#[derive(Debug, Clone)]
pub struct HotwireArtifact {
    pub path: String,
    pub action: String,
}

/// Request to initiate a run from the terminal.
#[derive(Debug, Clone)]
pub struct HotwireRequest {
    pub project_path: String,
    pub zellij_session: String,
    pub intent: Option<String>,
    pub suggested_playbook: Option<String>,
    pub suggested_artifacts: Option<Vec<HotwireArtifact>>,
}

/// Response when a run starts immediately.
#[derive(Debug, Clone)]
pub struct HotwireStarted {
    pub run_id: String,
    pub role: String,
    pub playbook: String,
    pub protocol: String,
}

/// Response when the user must confirm in the app.
#[derive(Debug, Clone)]
pub struct HotwireNeedsConfirmation {
    pub pending_run_id: String,
    pub suggested_playbook: Option<String>,
    pub message: String,
}

/// The tagged outcome of initiating a run.
#[derive(Debug, Clone)]
pub enum HotwireResponse {
    Started(HotwireStarted),
    NeedsConfirmation(HotwireNeedsConfirmation),
    Error { error: String },
}

/// Request to join a run as the second agent.
#[derive(Debug, Clone)]
pub struct PairRequest {
    pub zellij_session: String,
    pub project_path: String,
}

/// Context about the primary agent's state when joining.
#[derive(Debug, Clone)]
pub struct PairingContext {
    pub primary_status: String,
    pub current_artifact: Option<String>,
    pub conversation_summary: String,
}

/// Response when a run was joined.
#[derive(Debug, Clone)]
pub struct PairJoined {
    pub run_id: String,
    pub role: String,
    pub role_name: String,
    pub playbook: String,
    pub protocol: String,
    pub context: PairingContext,
}

/// A run waiting for a second agent.
#[derive(Debug, Clone)]
pub struct PendingPairRun {
    pub run_id: String,
    pub playbook: String,
    pub intent: String,
    pub role_needed: String,
}

/// Response when several runs need selection.
#[derive(Debug, Clone)]
pub struct PairNeedsSelection {
    pub pending_runs: Vec<PendingPairRun>,
    pub message: String,
}

/// Response when the project path does not match.
#[derive(Debug, Clone)]
pub struct PairProjectMismatch {
    pub required_path: String,
    pub current_path: String,
    pub message: String,
}

/// The tagged outcome of joining a run.
#[derive(Debug, Clone)]
pub enum PairResponse {
    Joined(PairJoined),
    NeedsSelection(PairNeedsSelection),
    NoneAvailable { message: String },
    ProjectMismatch(PairProjectMismatch),
    Error { error: String },
}

/// Request to list active runs.
#[derive(Debug, Clone)]
pub struct ListActiveRunsRequest {
    pub project_path: Option<String>,
    pub zellij_session: Option<String>,
}

/// An active or resumable run.
#[derive(Debug, Clone)]
pub struct ActiveRun {
    pub run_id: String,
    pub playbook: String,
    pub intent: String,
    pub status: String,
    pub my_role: Option<String>,
    pub created_at: String,
}

/// Response with the active runs.
#[derive(Debug, Clone)]
pub struct ListActiveRunsResponse {
    pub runs: Vec<ActiveRun>,
}

/// Request to list the available playbooks.
#[derive(Debug, Clone)]
pub struct ListPlaybooksRequest {}

/// A role within a playbook.
#[derive(Debug, Clone)]
pub struct PlaybookRoleInfo {
    pub id: String,
    pub name: String,
    pub description: String,
    pub is_initiating: bool,
}

/// Hints for initializing a playbook.
#[derive(Debug, Clone)]
pub struct PlaybookInitHints {
    pub expects_document: bool,
    pub expects_goal: bool,
    pub suggested_paths: Vec<String>,
}

/// Playbook metadata for intent matching.
#[derive(Debug, Clone)]
pub struct PlaybookInfo {
    pub id: String,
    pub name: String,
    pub tagline: String,
    pub description: String,
    pub artifact_mode: bool,
    pub roles: Vec<PlaybookRoleInfo>,
    pub best_for: Vec<String>,
    pub keywords: Vec<String>,
    pub initialization: PlaybookInitHints,
}

/// Response with the available playbooks.
#[derive(Debug, Clone)]
pub struct ListPlaybooksResponse {
    pub playbooks: Vec<PlaybookInfo>,
}

} // verus!
