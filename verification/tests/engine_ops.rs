//! Scenario tests for the collaboration engine: optimistic concurrency,
//! anchor maintenance, the comment state machine and the suggestion
//! workflow.

use hotwired_mcp::engine::CommentKind;
use hotwired_mcp::engine::CommentStatus;
use hotwired_mcp::engine::EditType;
use hotwired_mcp::engine::Engine;
use hotwired_mcp::engine::EngineError;
use hotwired_mcp::engine::ResolveAction;
use hotwired_mcp::engine::SuggestionStatus;
use hotwired_mcp::hash::content_hash;

fn chars(s: &str) -> Vec<char> {
    s.chars().collect()
}

fn text(v: &[char]) -> String {
    v.iter().collect()
}

#[test]
fn create_read_round_trip_hash() {
    let mut e = Engine::new();
    let (id, h0) = e.create_artifact("doc.md".to_string(), "notes".to_string(), chars("Hello world"));
    let (content, h, lines) = e.read(id).unwrap();
    assert_eq!(text(&content), "Hello world");
    assert_eq!(h, h0);
    assert_eq!(lines, 1);
    // computing the hash locally over the returned content gives the same token
    assert_eq!(content_hash(&content), h0);
}

#[test]
fn hash_is_deterministic_across_engines() {
    let mut e1 = Engine::new();
    let mut e2 = Engine::new();
    let (_, h1) = e1.create_artifact("a.md".to_string(), "notes".to_string(), chars("same text"));
    let (_, h2) = e2.create_artifact("b.md".to_string(), "notes".to_string(), chars("same text"));
    assert_eq!(h1, h2);
    let (_, h3) = e2.create_artifact("c.md".to_string(), "notes".to_string(), chars("other text"));
    assert_ne!(h1, h3);
}

#[test]
fn replace_range_succeeds_then_stale_hash_conflicts() {
    let mut e = Engine::new();
    let (id, h0) = e.create_artifact("doc.md".to_string(), "notes".to_string(), chars("Hello world"));

    let out = e
        .apply_edit(id, EditType::ReplaceRange, h0, &chars("Goodbye"), Some(0), Some(5), None)
        .unwrap();
    let h1 = out.new_hash;
    let (content, h, _) = e.read(id).unwrap();
    assert_eq!(text(&content), "Goodbye world");
    assert_eq!(h, h1);
    assert_ne!(h1, h0);

    // a second edit reusing the stale hash is refused with both hashes
    let err = e
        .apply_edit(id, EditType::ReplaceRange, h0, &chars("Hi"), Some(0), Some(7), None)
        .unwrap_err();
    match err {
        EngineError::Conflict { expected, actual } => {
            assert_eq!(expected, h0);
            assert_eq!(actual, h1);
        }
        other => panic!("expected Conflict, got {:?}", other),
    }
    // and the content is untouched
    let (content2, h2, _) = e.read(id).unwrap();
    assert_eq!(text(&content2), "Goodbye world");
    assert_eq!(h2, h1);
}

#[test]
fn stale_edit_leaves_content_byte_for_byte_unchanged() {
    let mut e = Engine::new();
    let (id, h0) = e.create_artifact("doc.md".to_string(), "notes".to_string(), chars("abcdef"));
    e.apply_edit(id, EditType::Append, h0, &chars("ghi"), None, None, None).unwrap();
    let (before, hb, _) = e.read(id).unwrap();
    let err = e
        .apply_edit(id, EditType::ReplaceRange, h0, &chars("zz"), Some(0), Some(2), None)
        .unwrap_err();
    assert!(matches!(err, EngineError::Conflict { .. }));
    let (after, ha, _) = e.read(id).unwrap();
    assert_eq!(text(&before), text(&after));
    assert_eq!(hb, ha);
}

#[test]
fn anchor_before_edit_is_unchanged_and_after_shifts() {
    let mut e = Engine::new();
    let (id, h0) =
        e.create_artifact("doc.md".to_string(), "notes".to_string(), chars("Hello world"));
    // comment over "world" (offsets 7..12 would leave the content; use 6..11)
    let (cid, sel) = e
        .add_comment(id, CommentKind::Comment, 6, 11, "nice".to_string(), None, "r".to_string(), None)
        .unwrap();
    assert_eq!(text(&sel), "world");

    // edit replaces "Hello" (0..5) with "Hi": delta is -3
    let out = e
        .apply_edit(id, EditType::ReplaceRange, h0, &chars("Hi"), Some(0), Some(5), None)
        .unwrap();
    assert!(out.affected_comments.is_empty());
    assert_eq!(e.comments[cid].sel_start, 3);
    assert_eq!(e.comments[cid].sel_end, 8);
    let (content, _, _) = e.read(id).unwrap();
    assert_eq!(text(&content), "Hi world");
    assert_eq!(text(&content)[3..8], *"world");
}

#[test]
fn comment_anchor_shift_scenario_with_padded_offsets() {
    // comment over offsets 7..12 of a string long enough to hold them
    let mut e = Engine::new();
    let (id, h0) =
        e.create_artifact("doc.md".to_string(), "notes".to_string(), chars("Hello  world"));
    let (cid, _) = e
        .add_comment(id, CommentKind::Comment, 7, 12, "c".to_string(), None, "r".to_string(), None)
        .unwrap();
    let out = e
        .apply_edit(id, EditType::ReplaceRange, h0, &chars("Hi"), Some(0), Some(5), None)
        .unwrap();
    assert!(out.affected_comments.is_empty());
    assert_eq!(e.comments[cid].sel_start, 4);
    assert_eq!(e.comments[cid].sel_end, 9);
}

#[test]
fn overlapping_anchor_is_flagged_and_clamped_not_resolved() {
    let mut e = Engine::new();
    let (id, h0) =
        e.create_artifact("doc.md".to_string(), "notes".to_string(), chars("Hello world"));
    let (cid, _) = e
        .add_comment(id, CommentKind::Issue, 3, 8, "mid".to_string(), None, "r".to_string(), None)
        .unwrap();
    let out = e
        .apply_edit(id, EditType::ReplaceRange, h0, &chars("Hey"), Some(0), Some(5), None)
        .unwrap();
    assert_eq!(out.affected_comments, vec![cid]);
    // status untouched: never silently auto-resolved
    assert!(matches!(e.comments[cid].status, CommentStatus::Open));
    // anchor still inside the new content
    let (content, _, _) = e.read(id).unwrap();
    assert!(e.comments[cid].sel_start <= e.comments[cid].sel_end);
    assert!(e.comments[cid].sel_end <= content.len());
}

#[test]
fn full_replace_flags_all_open_comments_and_clamps_to_zero() {
    let mut e = Engine::new();
    let (id, h0) =
        e.create_artifact("doc.md".to_string(), "notes".to_string(), chars("Hello world"));
    let (c1, _) = e
        .add_comment(id, CommentKind::Comment, 0, 5, "a".to_string(), None, "r".to_string(), None)
        .unwrap();
    let (c2, _) = e
        .add_comment(id, CommentKind::Comment, 6, 11, "b".to_string(), None, "r".to_string(), None)
        .unwrap();
    let out = e
        .apply_edit(id, EditType::FullReplace, h0, &chars("fresh"), None, None, None)
        .unwrap();
    assert_eq!(out.affected_comments, vec![c1, c2]);
    assert_eq!(e.comments[c1].sel_start, 0);
    assert_eq!(e.comments[c1].sel_end, 0);
    assert_eq!(e.comments[c2].sel_start, 0);
    assert_eq!(e.comments[c2].sel_end, 0);
}

#[test]
fn insert_and_append_edits() {
    let mut e = Engine::new();
    let (id, h0) = e.create_artifact("doc.md".to_string(), "notes".to_string(), chars("ab"));
    let out = e.apply_edit(id, EditType::Insert, h0, &chars("X"), None, None, Some(1)).unwrap();
    let (content, _, _) = e.read(id).unwrap();
    assert_eq!(text(&content), "aXb");
    let out2 = e.apply_edit(id, EditType::Append, out.new_hash, &chars("!"), None, None, None).unwrap();
    let (content2, h2, _) = e.read(id).unwrap();
    assert_eq!(text(&content2), "aXb!");
    assert_eq!(out2.new_hash, h2);
}

#[test]
fn invalid_ranges_are_rejected() {
    let mut e = Engine::new();
    let (id, h0) = e.create_artifact("doc.md".to_string(), "notes".to_string(), chars("short"));
    // start beyond end
    let err = e
        .apply_edit(id, EditType::ReplaceRange, h0, &chars("x"), Some(3), Some(2), None)
        .unwrap_err();
    assert!(matches!(err, EngineError::InvalidRange));
    // end beyond the content
    let err = e
        .apply_edit(id, EditType::ReplaceRange, h0, &chars("x"), Some(0), Some(99), None)
        .unwrap_err();
    assert!(matches!(err, EngineError::InvalidRange));
    // missing offsets
    let err = e
        .apply_edit(id, EditType::ReplaceRange, h0, &chars("x"), None, None, None)
        .unwrap_err();
    assert!(matches!(err, EngineError::InvalidRange));
    // insert point beyond the content
    let err = e
        .apply_edit(id, EditType::Insert, h0, &chars("x"), None, None, Some(6))
        .unwrap_err();
    assert!(matches!(err, EngineError::InvalidRange));
    // nothing changed
    let (content, h, _) = e.read(id).unwrap();
    assert_eq!(text(&content), "short");
    assert_eq!(h, h0);
}

#[test]
fn unknown_ids_give_not_found() {
    let mut e = Engine::new();
    assert!(matches!(e.read(0), Err(EngineError::NotFound)));
    assert!(matches!(
        e.apply_edit(5, EditType::Append, 0, &chars("x"), None, None, None),
        Err(EngineError::NotFound)
    ));
    assert!(matches!(
        e.add_comment(0, CommentKind::Comment, 0, 0, "c".to_string(), None, "a".to_string(), None),
        Err(EngineError::NotFound)
    ));
    assert!(matches!(
        e.resolve_comment(0, ResolveAction::Accept, None, "a".to_string()),
        Err(EngineError::NotFound)
    ));
    assert!(matches!(e.accept_suggestion(0, "a".to_string()), Err(EngineError::NotFound)));
    assert!(matches!(
        e.reject_suggestion(0, None, "a".to_string()),
        Err(EngineError::NotFound)
    ));
}

#[test]
fn add_comment_rejects_bad_selection() {
    let mut e = Engine::new();
    let (id, _) = e.create_artifact("doc.md".to_string(), "notes".to_string(), chars("abc"));
    let err = e
        .add_comment(id, CommentKind::Comment, 2, 1, "c".to_string(), None, "a".to_string(), None)
        .unwrap_err();
    assert!(matches!(err, EngineError::InvalidRange));
    let err = e
        .add_comment(id, CommentKind::Comment, 0, 4, "c".to_string(), None, "a".to_string(), None)
        .unwrap_err();
    assert!(matches!(err, EngineError::InvalidRange));
}

#[test]
fn comment_state_machine_actions() {
    let mut e = Engine::new();
    let (id, _) = e.create_artifact("doc.md".to_string(), "notes".to_string(), chars("abcdef"));
    let (c1, _) = e
        .add_comment(id, CommentKind::Question, 0, 3, "q".to_string(), None, "r".to_string(), None)
        .unwrap();

    // accept keeps the thread open
    let (status, reply) = e.resolve_comment(c1, ResolveAction::Accept, None, "h".to_string()).unwrap();
    assert!(matches!(status, CommentStatus::Open));
    assert!(reply.is_none());
    assert!(matches!(e.comments[c1].status, CommentStatus::Open));

    // reply creates a child and keeps the parent open
    let (status, reply) = e
        .resolve_comment(c1, ResolveAction::Reply, Some("answer".to_string()), "w".to_string())
        .unwrap();
    assert!(matches!(status, CommentStatus::Open));
    let reply_id = reply.unwrap();
    assert_eq!(e.comments[reply_id].parent, Some(c1));
    assert_eq!(e.comments[reply_id].content, "answer");
    assert!(matches!(e.comments[c1].status, CommentStatus::Open));

    // address closes it as resolved
    let (status, _) = e
        .resolve_comment(c1, ResolveAction::Address, Some("done".to_string()), "w".to_string())
        .unwrap();
    assert!(matches!(status, CommentStatus::Resolved));
    assert_eq!(e.comments[c1].resolved_by, Some("w".to_string()));

    // acting on a non-open comment fails
    let err = e.resolve_comment(c1, ResolveAction::Reject, None, "w".to_string()).unwrap_err();
    assert!(matches!(err, EngineError::InvalidState));
}

#[test]
fn reject_comment_is_terminal() {
    let mut e = Engine::new();
    let (id, _) = e.create_artifact("doc.md".to_string(), "notes".to_string(), chars("abcdef"));
    let (c1, _) = e
        .add_comment(id, CommentKind::Issue, 1, 2, "bad".to_string(), None, "r".to_string(), None)
        .unwrap();
    let (status, _) = e
        .resolve_comment(c1, ResolveAction::Reject, Some("disagree".to_string()), "h".to_string())
        .unwrap();
    assert!(matches!(status, CommentStatus::Rejected));
    assert_eq!(e.comments[c1].resolution_note, Some("disagree".to_string()));
    let err = e.resolve_comment(c1, ResolveAction::Address, None, "h".to_string()).unwrap_err();
    assert!(matches!(err, EngineError::InvalidState));
}

#[test]
fn legacy_resolve_action_behaves_like_address() {
    let mut e = Engine::new();
    let (id, _) = e.create_artifact("doc.md".to_string(), "notes".to_string(), chars("abcdef"));
    let (c1, _) = e
        .add_comment(id, CommentKind::Comment, 0, 1, "c".to_string(), None, "r".to_string(), None)
        .unwrap();
    let (status, _) = e.resolve_comment(c1, ResolveAction::Resolve, None, "h".to_string()).unwrap();
    assert!(matches!(status, CommentStatus::Resolved));
}

#[test]
fn suggestion_accept_resolves_comment_and_second_accept_fails() {
    let mut e = Engine::new();
    let (id, _h0) =
        e.create_artifact("doc.md".to_string(), "notes".to_string(), chars("Hello world"));
    let (c1, _) = e
        .add_comment(id, CommentKind::Suggestion, 0, 5, "greet".to_string(), None, "r".to_string(), None)
        .unwrap();
    let s1 = e
        .suggest_edit(
            id,
            c1,
            EditType::ReplaceRange,
            Some(0),
            Some(5),
            chars("Howdy"),
            Some("friendlier".to_string()),
            "w".to_string(),
        )
        .unwrap();
    assert!(matches!(e.suggestions[s1].status, SuggestionStatus::Pending));
    assert_eq!(text(e.suggestions[s1].original_text.as_ref().unwrap()), "Hello");

    let out = e.accept_suggestion(s1, "h".to_string()).unwrap();
    assert_eq!(out.resolved_comment, Some(c1));
    assert!(matches!(e.suggestions[s1].status, SuggestionStatus::Accepted));
    assert_eq!(e.suggestions[s1].accepted_by, Some("h".to_string()));
    assert!(matches!(e.comments[c1].status, CommentStatus::Resolved));
    let (content, h, _) = e.read(id).unwrap();
    assert_eq!(text(&content), "Howdy world");
    assert_eq!(h, out.new_hash);

    // a second accept on the now-accepted suggestion fails with InvalidState
    let err = e.accept_suggestion(s1, "h".to_string()).unwrap_err();
    assert!(matches!(err, EngineError::InvalidState));
}

#[test]
fn stale_suggestion_stays_pending_and_content_unchanged() {
    let mut e = Engine::new();
    let (id, h0) =
        e.create_artifact("doc.md".to_string(), "notes".to_string(), chars("Hello world"));
    let (c1, _) = e
        .add_comment(id, CommentKind::Suggestion, 0, 5, "greet".to_string(), None, "r".to_string(), None)
        .unwrap();
    let s1 = e
        .suggest_edit(id, c1, EditType::ReplaceRange, Some(0), Some(5), chars("Howdy"), None, "w".to_string())
        .unwrap();

    // the artifact changes at the suggestion's own range before acceptance
    e.apply_edit(id, EditType::ReplaceRange, h0, &chars("Heyyy"), Some(0), Some(5), None).unwrap();
    let (before, hb, _) = e.read(id).unwrap();

    let err = e.accept_suggestion(s1, "h".to_string()).unwrap_err();
    assert!(matches!(err, EngineError::StaleSuggestion));
    assert!(matches!(e.suggestions[s1].status, SuggestionStatus::Pending));
    let (after, ha, _) = e.read(id).unwrap();
    assert_eq!(text(&before), text(&after));
    assert_eq!(hb, ha);
    assert!(matches!(e.comments[c1].status, CommentStatus::Open));
}

#[test]
fn unrelated_edit_shifts_suggestion_anchor_and_accept_still_works() {
    let mut e = Engine::new();
    let (id, h0) =
        e.create_artifact("doc.md".to_string(), "notes".to_string(), chars("Hello world"));
    let (c1, _) = e
        .add_comment(id, CommentKind::Suggestion, 6, 11, "w".to_string(), None, "r".to_string(), None)
        .unwrap();
    let s1 = e
        .suggest_edit(id, c1, EditType::ReplaceRange, Some(6), Some(11), chars("there"), None, "w".to_string())
        .unwrap();

    // an edit strictly before the suggestion's range shifts its anchor
    e.apply_edit(id, EditType::ReplaceRange, h0, &chars("Hi"), Some(0), Some(5), None).unwrap();
    assert_eq!(e.suggestions[s1].start_offset, Some(3));
    assert_eq!(e.suggestions[s1].end_offset, Some(8));

    // the snapshot still matches at the shifted range, so acceptance works
    let out = e.accept_suggestion(s1, "h".to_string()).unwrap();
    let (content, h, _) = e.read(id).unwrap();
    assert_eq!(text(&content), "Hi there");
    assert_eq!(h, out.new_hash);
}

#[test]
fn reject_suggestion_leaves_comment_open() {
    let mut e = Engine::new();
    let (id, _) = e.create_artifact("doc.md".to_string(), "notes".to_string(), chars("abcdef"));
    let (c1, _) = e
        .add_comment(id, CommentKind::Suggestion, 0, 3, "c".to_string(), None, "r".to_string(), None)
        .unwrap();
    let s1 = e
        .suggest_edit(id, c1, EditType::ReplaceRange, Some(0), Some(3), chars("xyz"), None, "w".to_string())
        .unwrap();
    e.reject_suggestion(s1, Some("not needed".to_string()), "h".to_string()).unwrap();
    assert!(matches!(e.suggestions[s1].status, SuggestionStatus::Rejected));
    assert_eq!(e.suggestions[s1].rejection_reason, Some("not needed".to_string()));
    assert!(matches!(e.comments[c1].status, CommentStatus::Open));
    // a terminated suggestion cannot be rejected again
    let err = e.reject_suggestion(s1, None, "h".to_string()).unwrap_err();
    assert!(matches!(err, EngineError::InvalidState));
}

#[test]
fn suggest_edit_requires_open_comment() {
    let mut e = Engine::new();
    let (id, _) = e.create_artifact("doc.md".to_string(), "notes".to_string(), chars("abcdef"));
    let (c1, _) = e
        .add_comment(id, CommentKind::Comment, 0, 2, "c".to_string(), None, "r".to_string(), None)
        .unwrap();
    e.resolve_comment(c1, ResolveAction::Address, None, "h".to_string()).unwrap();
    let err = e
        .suggest_edit(id, c1, EditType::Append, None, None, chars("x"), None, "w".to_string())
        .unwrap_err();
    assert!(matches!(err, EngineError::InvalidState));
}

#[test]
fn list_comments_and_suggestions_filters() {
    let mut e = Engine::new();
    let (id, _) = e.create_artifact("doc.md".to_string(), "notes".to_string(), chars("abcdef"));
    let (c1, _) = e
        .add_comment(id, CommentKind::Comment, 0, 1, "a".to_string(), None, "r".to_string(), None)
        .unwrap();
    let (c2, _) = e
        .add_comment(id, CommentKind::Question, 1, 2, "b".to_string(), None, "r".to_string(), None)
        .unwrap();
    e.resolve_comment(c2, ResolveAction::Address, None, "h".to_string()).unwrap();

    let all = e.list_comments(id, None, None).unwrap();
    assert_eq!(all, vec![c1, c2]);
    let open = e.list_comments(id, Some(CommentStatus::Open), None).unwrap();
    assert_eq!(open, vec![c1]);
    let questions = e.list_comments(id, None, Some(CommentKind::Question)).unwrap();
    assert_eq!(questions, vec![c2]);

    let s1 = e
        .suggest_edit(id, c1, EditType::Append, None, None, chars("x"), None, "w".to_string())
        .unwrap();
    let pending = e.list_suggestions(id, Some(SuggestionStatus::Pending)).unwrap();
    assert_eq!(pending, vec![s1]);
    let rejected = e.list_suggestions(id, Some(SuggestionStatus::Rejected)).unwrap();
    assert!(rejected.is_empty());
}

#[test]
fn empty_artifact_edge_cases() {
    let mut e = Engine::new();
    let (id, h0) = e.create_artifact("empty.md".to_string(), "notes".to_string(), chars(""));
    let (content, _, lines) = e.read(id).unwrap();
    assert!(content.is_empty());
    assert_eq!(lines, 0);
    let (cid, sel) = e
        .add_comment(id, CommentKind::Comment, 0, 0, "c".to_string(), None, "r".to_string(), None)
        .unwrap();
    assert!(sel.is_empty());
    let out = e.apply_edit(id, EditType::Append, h0, &chars("hi"), None, None, None).unwrap();
    assert!(out.affected_comments.is_empty());
    assert_eq!(e.comments[cid].sel_start, 0);
    assert_eq!(e.comments[cid].sel_end, 0);
}
