//! Tests for the artifact response formatters.

use hotwired_mcp::artifacts::format_accept_suggestion_response;
use hotwired_mcp::artifacts::format_comments_response;
use hotwired_mcp::artifacts::format_edit_response;
use hotwired_mcp::artifacts::format_list_response;
use hotwired_mcp::artifacts::format_read_response;
use hotwired_mcp::artifacts::format_reject_suggestion_response;
use hotwired_mcp::artifacts::format_search_response;
use hotwired_mcp::artifacts::format_suggest_edit_response;
use hotwired_mcp::artifacts::format_suggestions_response;
use hotwired_mcp::messages::ArtifactSummary;
use hotwired_mcp::messages::CommentDetail;
use hotwired_mcp::messages::DocArtifactAcceptSuggestionResponse;
use hotwired_mcp::messages::DocArtifactEditResponse;
use hotwired_mcp::messages::DocArtifactListCommentsResponse;
use hotwired_mcp::messages::DocArtifactListResponse;
use hotwired_mcp::messages::DocArtifactListSuggestionsResponse;
use hotwired_mcp::messages::DocArtifactReadResponse;
use hotwired_mcp::messages::DocArtifactRejectSuggestionResponse;
use hotwired_mcp::messages::DocArtifactSearchResponse;
use hotwired_mcp::messages::DocArtifactSuggestEditResponse;
use hotwired_mcp::messages::EditConflict;
use hotwired_mcp::messages::InlineComment;
use hotwired_mcp::messages::SearchMatch;
use hotwired_mcp::messages::SuggestionDetail;

#[test]
fn test_format_edit_response_success() {
    let response = DocArtifactEditResponse {
        success: true,
        artifact_id: "artifact-1".to_string(),
        edit_id: "edit-123".to_string(),
        new_content_hash: "abc123def456".to_string(),
        affected_comments: vec![],
        conflict: None,
    };

    let output = format_edit_response(&response);
    assert!(output.contains("Edit successful"));
    assert!(output.contains("edit-123"));
    assert!(output.contains("abc123def456"));
    assert!(!output.contains("Affected comments"));
}

#[test]
fn test_format_edit_response_success_with_affected_comments() {
    let response = DocArtifactEditResponse {
        success: true,
        artifact_id: "artifact-1".to_string(),
        edit_id: "edit-456".to_string(),
        new_content_hash: "xyz789".to_string(),
        affected_comments: vec!["comment-1".to_string(), "comment-2".to_string()],
        conflict: None,
    };

    let output = format_edit_response(&response);
    assert!(output.contains("Edit successful"));
    assert!(output.contains("Affected comments"));
    assert!(output.contains("comment-1, comment-2"));
}

#[test]
fn test_format_edit_response_conflict() {
    let response = DocArtifactEditResponse {
        success: false,
        artifact_id: "artifact-1".to_string(),
        edit_id: String::new(),
        new_content_hash: String::new(),
        affected_comments: vec![],
        conflict: Some(EditConflict {
            expected_hash: "expected123".to_string(),
            actual_hash: "actual456".to_string(),
            message: "Hash mismatch".to_string(),
        }),
    };

    let output = format_edit_response(&response);
    assert!(output.contains("CONFLICT DETECTED"));
    assert!(output.contains("expected123"));
    assert!(output.contains("actual456"));
    assert!(output.contains("doc_artifact_read"));
}

#[test]
fn test_format_edit_response_unknown_failure() {
    let response = DocArtifactEditResponse {
        success: false,
        artifact_id: "artifact-1".to_string(),
        edit_id: String::new(),
        new_content_hash: String::new(),
        affected_comments: vec![],
        conflict: None,
    };

    let output = format_edit_response(&response);
    assert!(output.contains("Edit failed for unknown reason"));
}

#[test]
fn test_format_read_response_basic() {
    let response = DocArtifactReadResponse {
        artifact_id: "artifact-1".to_string(),
        filename: "document.md".to_string(),
        content: "# Hello World\n\nThis is content.".to_string(),
        content_hash: "hash123".to_string(),
        offset: 0,
        returned_lines: 3,
        total_lines: 3,
        has_more: false,
        comments: None,
    };

    let output = format_read_response(&response);
    assert!(output.contains("Document: document.md"));
    assert!(output.contains("hash123"));
    assert!(output.contains("3/3"));
    assert!(output.contains("# Hello World"));
}

#[test]
fn test_format_read_response_with_comments() {
    let response = DocArtifactReadResponse {
        artifact_id: "artifact-1".to_string(),
        filename: "document.md".to_string(),
        content: "# Hello World".to_string(),
        content_hash: "hash123".to_string(),
        offset: 0,
        returned_lines: 1,
        total_lines: 1,
        has_more: false,
        comments: Some(vec![InlineComment {
            id: "comment-1".to_string(),
            comment_type: "suggestion".to_string(),
            status: "open".to_string(),
            line_number: 1,
            author: "critiquer".to_string(),
            preview: "Add more detail...".to_string(),
        }]),
    };

    let output = format_read_response(&response);
    assert!(output.contains("Inline Comments"));
    assert!(output.contains("comment-1"));
    assert!(output.contains("Line 1"));
    assert!(output.contains("suggestion"));
    assert!(output.contains("critiquer"));
}

#[test]
fn test_format_read_response_with_pagination() {
    let response = DocArtifactReadResponse {
        artifact_id: "artifact-1".to_string(),
        filename: "long-document.md".to_string(),
        content: "First 100 lines...".to_string(),
        content_hash: "hash123".to_string(),
        offset: 100,
        returned_lines: 100,
        total_lines: 500,
        has_more: true,
        comments: None,
    };

    let output = format_read_response(&response);
    assert!(output.contains("100/500"));
    assert!(output.contains("offset: 100"));
    assert!(output.contains("has_more: true"));
}

#[test]
fn test_format_search_response_no_matches() {
    let response = DocArtifactSearchResponse {
        artifact_id: "artifact-1".to_string(),
        query: "nonexistent".to_string(),
        total_matches: 0,
        results: vec![],
    };

    let output = format_search_response(&response);
    assert!(output.contains("Search Results for: \"nonexistent\""));
    assert!(output.contains("Total matches:** 0"));
    assert!(output.contains("No matches found"));
}

#[test]
fn test_format_search_response_with_matches() {
    let response = DocArtifactSearchResponse {
        artifact_id: "artifact-1".to_string(),
        query: "hello".to_string(),
        total_matches: 2,
        results: vec![
            SearchMatch {
                line_number: 5,
                char_start: 0,
                char_end: 5,
                match_text: "hello".to_string(),
                context: "hello world".to_string(),
                section: Some("Introduction".to_string()),
            },
            SearchMatch {
                line_number: 10,
                char_start: 3,
                char_end: 8,
                match_text: "hello".to_string(),
                context: "   hello again".to_string(),
                section: None,
            },
        ],
    };

    let output = format_search_response(&response);
    assert!(output.contains("Total matches:** 2"));
    assert!(output.contains("Match 1 (Line 5"));
    assert!(output.contains("Match 2 (Line 10"));
    assert!(output.contains("Section:** Introduction"));
    assert!(output.contains("Matched text:** `hello`"));
}

#[test]
fn test_format_comments_response_empty() {
    let response = DocArtifactListCommentsResponse {
        artifact_id: "artifact-1".to_string(),
        comments: vec![],
    };

    let output = format_comments_response(&response);
    assert!(output.contains("Total:** 0 comments"));
    assert!(output.contains("No comments found"));
}

#[test]
fn test_format_comments_response_with_comments() {
    let response = DocArtifactListCommentsResponse {
        artifact_id: "artifact-1".to_string(),
        comments: vec![CommentDetail {
            id: "comment-123".to_string(),
            comment_type: "suggestion".to_string(),
            status: "open".to_string(),
            author: "critiquer".to_string(),
            selection_start: 0,
            selection_end: 50,
            selection_text: Some("Some selected text".to_string()),
            content: "This needs improvement".to_string(),
            suggested_text: Some("Better text".to_string()),
            created_at: "2024-01-15T10:30:00Z".to_string(),
            resolved_by: None,
            resolved_at: None,
            resolution_note: None,
        }],
    };

    let output = format_comments_response(&response);
    assert!(output.contains("comment-123"));
    assert!(output.contains("🔵")); // open status icon
    assert!(output.contains("💡")); // suggestion type icon
    assert!(output.contains("critiquer"));
    assert!(output.contains("chars 0-50"));
    assert!(output.contains("This needs improvement"));
    assert!(output.contains("Suggested replacement"));
}

#[test]
fn test_format_comments_response_resolved() {
    let response = DocArtifactListCommentsResponse {
        artifact_id: "artifact-1".to_string(),
        comments: vec![CommentDetail {
            id: "comment-456".to_string(),
            comment_type: "question".to_string(),
            status: "resolved".to_string(),
            author: "writer".to_string(),
            selection_start: 10,
            selection_end: 20,
            selection_text: None,
            content: "What does this mean?".to_string(),
            suggested_text: None,
            created_at: "2024-01-15T10:30:00Z".to_string(),
            resolved_by: Some("human".to_string()),
            resolved_at: Some("2024-01-15T11:00:00Z".to_string()),
            resolution_note: Some("Clarified the meaning".to_string()),
        }],
    };

    let output = format_comments_response(&response);
    assert!(output.contains("✅")); // resolved status
    assert!(output.contains("❓")); // question type
    assert!(output.contains("Resolved by:** human"));
    assert!(output.contains("Resolution note:** Clarified"));
}

#[test]
fn test_format_list_response_empty() {
    let response = DocArtifactListResponse {
        run_id: "run-123".to_string(),
        artifacts: vec![],
    };

    let output = format_list_response(&response);
    assert!(output.contains("Artifacts in Run: run-123"));
    assert!(output.contains("Total:** 0 artifacts"));
    assert!(output.contains("No artifacts found"));
}

#[test]
fn test_format_list_response_with_artifacts() {
    let response = DocArtifactListResponse {
        run_id: "run-123".to_string(),
        artifacts: vec![
            ArtifactSummary {
                id: "artifact-1".to_string(),
                filename: "prd.md".to_string(),
                document_type: "prd".to_string(),
                total_lines: 150,
                content_hash: "abcdef123456789012345678".to_string(),
                created_at: "2024-01-15T10:00:00Z".to_string(),
                updated_at: "2024-01-15T10:30:00Z".to_string(),
            },
            ArtifactSummary {
                id: "artifact-2".to_string(),
                filename: "design.md".to_string(),
                document_type: "design".to_string(),
                total_lines: 75,
                content_hash: "xyz789abcdef0123456789ab".to_string(),
                created_at: "2024-01-15T10:30:00Z".to_string(),
                updated_at: "2024-01-15T11:00:00Z".to_string(),
            },
        ],
    };

    let output = format_list_response(&response);
    assert!(output.contains("Total:** 2 artifacts"));
    assert!(output.contains("prd.md"));
    assert!(output.contains("design.md"));
    assert!(output.contains("Lines: 150"));
    assert!(output.contains("Lines: 75"));
    // Hash should be truncated to 8 chars
    assert!(output.contains("abcdef12"));
}

#[test]
fn test_format_suggestions_response_empty() {
    let response = DocArtifactListSuggestionsResponse {
        artifact_id: "artifact-1".to_string(),
        suggestions: vec![],
    };

    let output = format_suggestions_response(&response);
    assert!(output.contains("Total:** 0 suggestions"));
    assert!(output.contains("No suggestions found"));
}

#[test]
fn test_format_suggestions_response_pending() {
    let response = DocArtifactListSuggestionsResponse {
        artifact_id: "artifact-1".to_string(),
        suggestions: vec![SuggestionDetail {
            id: "suggestion-1".to_string(),
            comment_id: "comment-1".to_string(),
            artifact_id: "artifact-1".to_string(),
            edit_type: "replace_range".to_string(),
            status: "pending".to_string(),
            suggested_by: "writer".to_string(),
            start_offset: Some(0),
            end_offset: Some(50),
            original_text: Some("Original content here".to_string()),
            suggested_text: "Improved content here".to_string(),
            rationale: Some("Better clarity".to_string()),
            created_at: "2024-01-15T10:30:00Z".to_string(),
            updated_at: "2024-01-15T10:30:00Z".to_string(),
            accepted_by: None,
            accepted_at: None,
            rejection_reason: None,
        }],
    };

    let output = format_suggestions_response(&response);
    assert!(output.contains("🟡")); // pending icon
    assert!(output.contains("suggestion-1"));
    assert!(output.contains("comment-1"));
    assert!(output.contains("replace_range"));
    assert!(output.contains("writer"));
    assert!(output.contains("chars 0-50"));
    assert!(output.contains("Better clarity"));
}

#[test]
fn test_format_suggestions_response_accepted() {
    let response = DocArtifactListSuggestionsResponse {
        artifact_id: "artifact-1".to_string(),
        suggestions: vec![SuggestionDetail {
            id: "suggestion-2".to_string(),
            comment_id: "comment-2".to_string(),
            artifact_id: "artifact-1".to_string(),
            edit_type: "insert".to_string(),
            status: "accepted".to_string(),
            suggested_by: "writer".to_string(),
            start_offset: None,
            end_offset: None,
            original_text: None,
            suggested_text: "New content".to_string(),
            rationale: None,
            created_at: "2024-01-15T10:30:00Z".to_string(),
            updated_at: "2024-01-15T11:00:00Z".to_string(),
            accepted_by: Some("human".to_string()),
            accepted_at: Some("2024-01-15T11:00:00Z".to_string()),
            rejection_reason: None,
        }],
    };

    let output = format_suggestions_response(&response);
    assert!(output.contains("✅")); // accepted icon
    assert!(output.contains("Accepted by:** human"));
    assert!(output.contains("Accepted at:** 2024-01-15T11:00:00Z"));
}

#[test]
fn test_format_suggestions_response_rejected() {
    let response = DocArtifactListSuggestionsResponse {
        artifact_id: "artifact-1".to_string(),
        suggestions: vec![SuggestionDetail {
            id: "suggestion-3".to_string(),
            comment_id: "comment-3".to_string(),
            artifact_id: "artifact-1".to_string(),
            edit_type: "append".to_string(),
            status: "rejected".to_string(),
            suggested_by: "writer".to_string(),
            start_offset: None,
            end_offset: None,
            original_text: None,
            suggested_text: "Unwanted content".to_string(),
            rationale: None,
            created_at: "2024-01-15T10:30:00Z".to_string(),
            updated_at: "2024-01-15T10:35:00Z".to_string(),
            accepted_by: None,
            accepted_at: None,
            rejection_reason: Some("Not relevant to scope".to_string()),
        }],
    };

    let output = format_suggestions_response(&response);
    assert!(output.contains("❌")); // rejected icon
    assert!(output.contains("Rejection reason:** Not relevant to scope"));
}

#[test]
fn test_format_suggest_edit_response() {
    let response = DocArtifactSuggestEditResponse {
        suggestion_id: "suggestion-new".to_string(),
        comment_id: "comment-linked".to_string(),
        artifact_id: "artifact-1".to_string(),
    };

    let output = format_suggest_edit_response(&response);
    assert!(output.contains("Suggestion created successfully"));
    assert!(output.contains("suggestion-new"));
    assert!(output.contains("comment-linked"));
    assert!(output.contains("artifact-1"));
    assert!(output.contains("Accept or Reject"));
}

#[test]
fn test_format_accept_suggestion_response() {
    let response = DocArtifactAcceptSuggestionResponse {
        success: true,
        suggestion_id: "suggestion-accepted".to_string(),
        new_content_hash: "newhash123".to_string(),
        resolved_comments: vec!["comment-1".to_string(), "comment-2".to_string()],
    };

    let output = format_accept_suggestion_response(&response);
    assert!(output.contains("Suggestion accepted and applied"));
    assert!(output.contains("suggestion-accepted"));
    assert!(output.contains("newhash123"));
    assert!(output.contains("Resolved comments"));
    assert!(output.contains("comment-1, comment-2"));
}

#[test]
fn test_format_accept_suggestion_response_no_resolved() {
    let response = DocArtifactAcceptSuggestionResponse {
        success: true,
        suggestion_id: "suggestion-123".to_string(),
        new_content_hash: "hash456".to_string(),
        resolved_comments: vec![],
    };

    let output = format_accept_suggestion_response(&response);
    assert!(output.contains("Suggestion accepted"));
    assert!(!output.contains("Resolved comments"));
}

#[test]
fn test_format_reject_suggestion_response() {
    let response = DocArtifactRejectSuggestionResponse {
        success: true,
        suggestion_id: "suggestion-rejected".to_string(),
    };

    let output = format_reject_suggestion_response(&response);
    assert!(output.contains("Suggestion rejected"));
    assert!(output.contains("suggestion-rejected"));
    assert!(output.contains("NOT applied"));
}

#[test]
fn test_format_read_response_negative_offset() {
    let response = DocArtifactReadResponse {
        artifact_id: "artifact-1".to_string(),
        filename: "doc.md".to_string(),
        content: "x".to_string(),
        content_hash: "h".to_string(),
        offset: -5,
        returned_lines: 1,
        total_lines: 1,
        has_more: false,
        comments: None,
    };

    let output = format_read_response(&response);
    assert!(output.contains("offset: -5"));
}

#[test]
fn test_format_reject_suggestion_response_exact_text() {
    let response = DocArtifactRejectSuggestionResponse {
        success: true,
        suggestion_id: "s-9".to_string(),
    };

    let output = format_reject_suggestion_response(&response);
    assert_eq!(
        output,
        "✓ Suggestion rejected\n\n**Suggestion ID:** `s-9`\n\nThe suggested edit was NOT applied. Consider a different approach or ask for clarification."
    );
}
