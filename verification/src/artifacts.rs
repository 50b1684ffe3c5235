//! Validators and response formatters for the artifact tools.
//!
//! The formatters render engine responses as the markdown the tool layer
//! hands to agents; each one's contract states its exact output.

use vstd::prelude::*;

use crate::messages::ArtifactSummary;
use crate::messages::CommentDetail;
use crate::messages::DocArtifactAcceptSuggestionResponse;
use crate::messages::DocArtifactEditResponse;
use crate::messages::DocArtifactListCommentsResponse;
use crate::messages::DocArtifactListResponse;
use crate::messages::DocArtifactListSuggestionsResponse;
use crate::messages::DocArtifactReadResponse;
use crate::messages::DocArtifactRejectSuggestionResponse;
use crate::messages::DocArtifactSearchResponse;
use crate::messages::DocArtifactSuggestEditResponse;
use crate::messages::InlineComment;
use crate::messages::SearchMatch;
use crate::messages::SuggestionDetail;
use crate::strfmt::bool_string;
use crate::strfmt::bool_text;
use crate::strfmt::clip_string;
use crate::strfmt::clipped;
use crate::strfmt::dec_of;
use crate::strfmt::dec_of_int;
use crate::strfmt::i64_string;
use crate::strfmt::invalid_value_msg;
use crate::strfmt::join_strings;
use crate::strfmt::joined;
use crate::strfmt::str_eq;
use crate::strfmt::string_views;
use crate::strfmt::u64_string;

verus! {

/// Accept exactly the four edit operations.
pub fn validate_edit_type(edit_type: &str) -> (r: Result<(), String>)
    ensures
        r is Ok <==> (edit_type@ == "replace_range"@ || edit_type@ == "insert"@ || edit_type@
            == "append"@ || edit_type@ == "full_replace"@),
        r is Err ==> r->Err_0@ == "Invalid edit type '"@ + edit_type@ + "'. Must be one of: "@
            + "replace_range, insert, append, full_replace"@,
{
    if str_eq(edit_type, "replace_range") || str_eq(edit_type, "insert") || str_eq(
        edit_type,
        "append",
    ) || str_eq(edit_type, "full_replace") {
        Ok(())
    } else {
        Err(
            invalid_value_msg(
                "Invalid edit type '",
                edit_type,
                "replace_range, insert, append, full_replace",
            ),
        )
    }
}

/// Accept exactly the four comment kinds.
pub fn validate_comment_type(comment_type: &str) -> (r: Result<(), String>)
    ensures
        r is Ok <==> (comment_type@ == "comment"@ || comment_type@ == "question"@
            || comment_type@ == "suggestion"@ || comment_type@ == "issue"@),
        r is Err ==> r->Err_0@ == "Invalid comment type '"@ + comment_type@
            + "'. Must be one of: "@ + "comment, question, suggestion, issue"@,
{
    if str_eq(comment_type, "comment") || str_eq(comment_type, "question") || str_eq(
        comment_type,
        "suggestion",
    ) || str_eq(comment_type, "issue") {
        Ok(())
    } else {
        Err(
            invalid_value_msg(
                "Invalid comment type '",
                comment_type,
                "comment, question, suggestion, issue",
            ),
        )
    }
}

/// Accept exactly the five actions on an open comment.
pub fn validate_resolve_action(action: &str) -> (r: Result<(), String>)
    ensures
        r is Ok <==> (action@ == "accept"@ || action@ == "reject"@ || action@ == "reply"@
            || action@ == "address"@ || action@ == "resolve"@),
        r is Err ==> r->Err_0@ == "Invalid action '"@ + action@ + "'. Must be one of: "@
            + "accept, reject, reply, address, resolve"@,
{
    if str_eq(action, "accept") || str_eq(action, "reject") || str_eq(action, "reply") || str_eq(
        action,
        "address",
    ) || str_eq(action, "resolve") {
        Ok(())
    } else {
        Err(
            invalid_value_msg(
                "Invalid action '",
                action,
                "accept, reject, reply, address, resolve",
            ),
        )
    }
}

/// Accept exactly the suggestion status filters.
pub fn validate_suggestion_status(status: &str) -> (r: Result<(), String>)
    ensures
        r is Ok <==> (status@ == "pending"@ || status@ == "accepted"@ || status@ == "rejected"@
            || status@ == "all"@),
        r is Err ==> r->Err_0@ == "Invalid status '"@ + status@ + "'. Must be one of: "@
            + "pending, accepted, rejected, all"@,
{
    if str_eq(status, "pending") || str_eq(status, "accepted") || str_eq(status, "rejected")
        || str_eq(status, "all") {
        Ok(())
    } else {
        Err(invalid_value_msg("Invalid status '", status, "pending, accepted, rejected, all"))
    }
}

/// The text `format_edit_response` renders.
pub open spec fn edit_response_text(r: DocArtifactEditResponse) -> Seq<char> {
    if !r.success {
        match r.conflict {
            Some(c) =>
                "⚠️ **CONFLICT DETECTED**\n\nThe document was modified since you last read it.\n- Expected hash: `"@
                + c.expected_hash@ + "`\n- Actual hash: `"@ + c.actual_hash@
                + "`\n\n**Resolution:** Call `doc_artifact_read` to get the latest content and hash, then retry your edit."@,
            None => "Edit failed for unknown reason."@,
        }
    } else {
        let base = "✓ Edit successful (ID: "@ + r.edit_id@ + ")\n\n**New content hash:** `"@
            + r.new_content_hash@ + "`\n"@;
        if r.affected_comments@.len() > 0 {
            base + "\n**Affected comments:** "@ + joined(string_views(r.affected_comments@), ", "@)
                + "\nThese comments may need to be reviewed as their positions may have shifted."@
        } else {
            base
        }
    }
}

/// Format an edit response: a conflict report carrying both hashes, or the
/// new hash and any affected comments.
pub fn format_edit_response(response: &DocArtifactEditResponse) -> (out: String)
    ensures
        out@ == edit_response_text(*response),
{
    if !response.success {
        match &response.conflict {
            Some(c) => {
                let mut out = String::from_str(
                    "⚠️ **CONFLICT DETECTED**\n\nThe document was modified since you last read it.\n- Expected hash: `",
                );
                out.append(c.expected_hash.as_str());
                out.append("`\n- Actual hash: `");
                out.append(c.actual_hash.as_str());
                out.append(
                    "`\n\n**Resolution:** Call `doc_artifact_read` to get the latest content and hash, then retry your edit.",
                );
                out
            },
            None => String::from_str("Edit failed for unknown reason."),
        }
    } else {
        let mut out = String::from_str("✓ Edit successful (ID: ");
        out.append(response.edit_id.as_str());
        out.append(")\n\n**New content hash:** `");
        out.append(response.new_content_hash.as_str());
        out.append("`\n");
        if response.affected_comments.len() > 0 {
            out.append("\n**Affected comments:** ");
            let ids = join_strings(&response.affected_comments, ", ");
            out.append(ids.as_str());
            out.append(
                "\nThese comments may need to be reviewed as their positions may have shifted.",
            );
        }
        out
    }
}

/// One inline comment marker of a read response.
pub open spec fn inline_comment_line(c: InlineComment) -> Seq<char> {
    "- ["@ + c.id@ + "] Line "@ + dec_of_int(c.line_number as int) + ": "@ + c.comment_type@
        + " ("@ + c.author@ + ") - \""@ + c.preview@ + "\"\n"@
}

/// The inline comment markers of a read response, in order.
pub open spec fn inline_comment_lines(cs: Seq<InlineComment>) -> Seq<char>
    decreases cs.len(),
{
    if cs.len() == 0 {
        Seq::empty()
    } else {
        inline_comment_lines(cs.drop_last()) + inline_comment_line(cs.last())
    }
}

/// The text `format_read_response` renders.
pub open spec fn read_response_text(r: DocArtifactReadResponse) -> Seq<char> {
    let head = "## Document: "@ + r.filename@ + "\n\n**Content Hash:** `"@ + r.content_hash@
        + "`\n**Lines:** "@ + dec_of_int(r.returned_lines as int) + "/"@ + dec_of_int(
        r.total_lines as int,
    ) + " (offset: "@ + dec_of_int(r.offset as int) + ", has_more: "@ + bool_text(r.has_more)
        + ")\n\n"@;
    let with_comments = match r.comments {
        Some(cs) => if cs@.len() > 0 {
            head + "### Inline Comments\n"@ + inline_comment_lines(cs@) + "\n"@
        } else {
            head
        },
        None => head,
    };
    with_comments + "### Content\n\n```markdown\n"@ + r.content@ + "\n```\n"@
}

/// Render one inline comment marker.
fn render_inline_comment(c: &InlineComment) -> (out: String)
    ensures
        out@ == inline_comment_line(*c),
{
    let mut out = String::from_str("- [");
    out.append(c.id.as_str());
    out.append("] Line ");
    let n = i64_string(c.line_number);
    out.append(n.as_str());
    out.append(": ");
    out.append(c.comment_type.as_str());
    out.append(" (");
    out.append(c.author.as_str());
    out.append(") - \"");
    out.append(c.preview.as_str());
    out.append("\"\n");
    out
}

/// Format a read response: document header, hash, pagination, any inline
/// comment markers, and the content itself fenced as markdown.
pub fn format_read_response(response: &DocArtifactReadResponse) -> (out: String)
    ensures
        out@ == read_response_text(*response),
{
    let mut out = String::from_str("## Document: ");
    out.append(response.filename.as_str());
    out.append("\n\n**Content Hash:** `");
    out.append(response.content_hash.as_str());
    out.append("`\n**Lines:** ");
    let returned = i64_string(response.returned_lines);
    out.append(returned.as_str());
    out.append("/");
    let total = i64_string(response.total_lines);
    out.append(total.as_str());
    out.append(" (offset: ");
    let offset = i64_string(response.offset);
    out.append(offset.as_str());
    out.append(", has_more: ");
    let more = bool_string(response.has_more);
    out.append(more.as_str());
    out.append(")\n\n");
    match &response.comments {
        Some(cs) => {
            if cs.len() > 0 {
                out.append("### Inline Comments\n");
                let ghost head = out@;
                let mut i: usize = 0;
                while i < cs.len()
                    invariant
                        i <= cs@.len(),
                        out@ == head + inline_comment_lines(cs@.take(i as int)),
                    decreases cs@.len() - i,
                {
                    let line = render_inline_comment(&cs[i]);
                    out.append(line.as_str());
                    proof {
                        assert(cs@.take(i + 1).drop_last() =~= cs@.take(i as int));
                        assert(cs@.take(i + 1).last() == cs@[i as int]);
                        assert(out@ =~= head + inline_comment_lines(cs@.take(i + 1)));
                    }
                    i = i + 1;
                }
                proof {
                    assert(cs@.take(cs@.len() as int) =~= cs@);
                }
                out.append("\n");
            }
        },
        None => {},
    }
    out.append("### Content\n\n```markdown\n");
    out.append(response.content.as_str());
    out.append("\n```\n");
    out
}

/// One search match block; `number` is its 1-based position in the output.
pub open spec fn search_match_block(m: SearchMatch, number: int) -> Seq<char> {
    let head = "### Match "@ + dec_of(number as nat) + " (Line "@ + dec_of_int(
        m.line_number as int,
    ) + ", chars "@ + dec_of_int(m.char_start as int) + "-"@ + dec_of_int(m.char_end as int)
        + ")\n"@;
    let with_section = match m.section {
        Some(s) => head + "**Section:** "@ + s@ + "\n"@,
        None => head,
    };
    with_section + "**Matched text:** `"@ + m.match_text@ + "`\n\n```\n"@ + m.context@
        + "\n```\n\n"@
}

/// The search match blocks, numbered from one.
pub open spec fn search_match_blocks(ms: Seq<SearchMatch>) -> Seq<char>
    decreases ms.len(),
{
    if ms.len() == 0 {
        Seq::empty()
    } else {
        search_match_blocks(ms.drop_last()) + search_match_block(ms.last(), ms.len() as int)
    }
}

/// The text `format_search_response` renders.
pub open spec fn search_response_text(r: DocArtifactSearchResponse) -> Seq<char> {
    let head = "## Search Results for: \""@ + r.query@ + "\"\n\n**Total matches:** "@
        + dec_of_int(r.total_matches as int) + "\n\n"@;
    if r.results@.len() == 0 {
        head + "No matches found.\n"@
    } else {
        head + search_match_blocks(r.results@)
    }
}

/// Render one search match block.
fn render_search_match(m: &SearchMatch, number: u64) -> (out: String)
    ensures
        out@ == search_match_block(*m, number as int),
{
    let mut out = String::from_str("### Match ");
    let n = u64_string(number);
    out.append(n.as_str());
    out.append(" (Line ");
    let line = i64_string(m.line_number);
    out.append(line.as_str());
    out.append(", chars ");
    let cs = i64_string(m.char_start);
    out.append(cs.as_str());
    out.append("-");
    let ce = i64_string(m.char_end);
    out.append(ce.as_str());
    out.append(")\n");
    match &m.section {
        Some(s) => {
            out.append("**Section:** ");
            out.append(s.as_str());
            out.append("\n");
        },
        None => {},
    }
    out.append("**Matched text:** `");
    out.append(m.match_text.as_str());
    out.append("`\n\n```\n");
    out.append(m.context.as_str());
    out.append("\n```\n\n");
    out
}

/// Format a search response: the query, the match count, and each match
/// with its location, optional section and context.
pub fn format_search_response(response: &DocArtifactSearchResponse) -> (out: String)
    ensures
        out@ == search_response_text(*response),
{
    let mut out = String::from_str("## Search Results for: \"");
    out.append(response.query.as_str());
    out.append("\"\n\n**Total matches:** ");
    let total = i64_string(response.total_matches);
    out.append(total.as_str());
    out.append("\n\n");
    if response.results.len() == 0 {
        out.append("No matches found.\n");
        return out;
    }
    let ghost head = out@;
    let mut i: usize = 0;
    while i < response.results.len()
        invariant
            i <= response.results@.len(),
            out@ == head + search_match_blocks(response.results@.take(i as int)),
        decreases response.results@.len() - i,
    {
        let block = render_search_match(&response.results[i], (i as u64) + 1);
        out.append(block.as_str());
        proof {
            assert(response.results@.take(i + 1).drop_last() =~= response.results@.take(i as int));
            assert(response.results@.take(i + 1).last() == response.results@[i as int]);
            assert(out@ =~= head + search_match_blocks(response.results@.take(i + 1)));
        }
        i = i + 1;
    }
    proof {
        assert(response.results@.take(response.results@.len() as int) =~= response.results@);
    }
    out
}

/// A text preview: clipped to `n` characters with an ellipsis when longer.
pub open spec fn preview_text(t: Seq<char>, n: int) -> Seq<char> {
    if t.len() > n {
        clipped(t, n) + "..."@
    } else {
        t
    }
}

/// Render a preview of `s` clipped to `n` characters.
fn render_preview(s: &str, n: usize) -> (out: String)
    ensures
        out@ == preview_text(s@, n as int),
{
    let len = s.unicode_len();
    if len > n {
        let mut out = clip_string(s, n);
        out.append("...");
        out
    } else {
        s.to_owned()
    }
}

/// The status icon of a comment.
pub open spec fn comment_status_icon(s: Seq<char>) -> Seq<char> {
    if s == "open"@ {
        "🔵"@
    } else if s == "resolved"@ {
        "✅"@
    } else if s == "rejected"@ {
        "❌"@
    } else {
        "⚪"@
    }
}

/// The kind icon of a comment.
pub open spec fn comment_type_icon(s: Seq<char>) -> Seq<char> {
    if s == "comment"@ {
        "💬"@
    } else if s == "question"@ {
        "❓"@
    } else if s == "suggestion"@ {
        "💡"@
    } else if s == "issue"@ {
        "⚠️"@
    } else {
        "📝"@
    }
}

/// One comment's block in the comment listing.
pub open spec fn comment_detail_block(c: CommentDetail) -> Seq<char> {
    let head = "### "@ + comment_status_icon(c.status@) + " "@ + comment_type_icon(
        c.comment_type@,
    ) + " ["@ + c.id@ + "] - "@ + c.comment_type@ + " (by "@ + c.author@ + ")\n"@
        + "**Selection:** chars "@ + dec_of_int(c.selection_start as int) + "-"@ + dec_of_int(
        c.selection_end as int,
    ) + "\n"@;
    let with_sel = match c.selection_text {
        Some(t) => head + "**Selected text:** \""@ + preview_text(t@, 50) + "\"\n"@,
        None => head,
    };
    let with_content = with_sel + "**Content:** "@ + c.content@ + "\n"@;
    let with_sugg = match c.suggested_text {
        Some(s) => with_content + "**Suggested replacement:** \""@ + s@ + "\"\n"@,
        None => with_content,
    };
    let with_res = if c.status@ != "open"@ {
        let w1 = match c.resolved_by {
            Some(b) => with_sugg + "**Resolved by:** "@ + b@ + "\n"@,
            None => with_sugg,
        };
        match c.resolution_note {
            Some(n) => w1 + "**Resolution note:** "@ + n@ + "\n"@,
            None => w1,
        }
    } else {
        with_sugg
    };
    with_res + "**Created:** "@ + c.created_at@ + "\n\n"@
}

/// The comment blocks, in order.
pub open spec fn comment_detail_blocks(cs: Seq<CommentDetail>) -> Seq<char>
    decreases cs.len(),
{
    if cs.len() == 0 {
        Seq::empty()
    } else {
        comment_detail_blocks(cs.drop_last()) + comment_detail_block(cs.last())
    }
}

/// The text `format_comments_response` renders.
pub open spec fn comments_response_text(r: DocArtifactListCommentsResponse) -> Seq<char> {
    let head = "## Comments on Artifact: "@ + r.artifact_id@ + "\n\n**Total:** "@ + dec_of(
        r.comments@.len(),
    ) + " comments\n\n"@;
    if r.comments@.len() == 0 {
        head + "No comments found matching the filter.\n"@
    } else {
        head + comment_detail_blocks(r.comments@)
    }
}

/// Render one comment's block.
fn render_comment_detail(c: &CommentDetail) -> (out: String)
    ensures
        out@ == comment_detail_block(*c),
{
    let mut out = String::from_str("### ");
    if str_eq(c.status.as_str(), "open") {
        out.append("🔵");
    } else if str_eq(c.status.as_str(), "resolved") {
        out.append("✅");
    } else if str_eq(c.status.as_str(), "rejected") {
        out.append("❌");
    } else {
        out.append("⚪");
    }
    out.append(" ");
    if str_eq(c.comment_type.as_str(), "comment") {
        out.append("💬");
    } else if str_eq(c.comment_type.as_str(), "question") {
        out.append("❓");
    } else if str_eq(c.comment_type.as_str(), "suggestion") {
        out.append("💡");
    } else if str_eq(c.comment_type.as_str(), "issue") {
        out.append("⚠️");
    } else {
        out.append("📝");
    }
    out.append(" [");
    out.append(c.id.as_str());
    out.append("] - ");
    out.append(c.comment_type.as_str());
    out.append(" (by ");
    out.append(c.author.as_str());
    out.append(")\n");
    out.append("**Selection:** chars ");
    let start = i64_string(c.selection_start);
    out.append(start.as_str());
    out.append("-");
    let end = i64_string(c.selection_end);
    out.append(end.as_str());
    out.append("\n");
    match &c.selection_text {
        Some(t) => {
            out.append("**Selected text:** \"");
            let preview = render_preview(t.as_str(), 50);
            out.append(preview.as_str());
            out.append("\"\n");
        },
        None => {},
    }
    out.append("**Content:** ");
    out.append(c.content.as_str());
    out.append("\n");
    match &c.suggested_text {
        Some(s) => {
            out.append("**Suggested replacement:** \"");
            out.append(s.as_str());
            out.append("\"\n");
        },
        None => {},
    }
    if !str_eq(c.status.as_str(), "open") {
        match &c.resolved_by {
            Some(b) => {
                out.append("**Resolved by:** ");
                out.append(b.as_str());
                out.append("\n");
            },
            None => {},
        }
        match &c.resolution_note {
            Some(n) => {
                out.append("**Resolution note:** ");
                out.append(n.as_str());
                out.append("\n");
            },
            None => {},
        }
    }
    out.append("**Created:** ");
    out.append(c.created_at.as_str());
    out.append("\n\n");
    out
}

/// Format a comment listing: a header with the total, then each comment
/// with its icons, selection, text and resolution details.
pub fn format_comments_response(response: &DocArtifactListCommentsResponse) -> (out: String)
    ensures
        out@ == comments_response_text(*response),
{
    let mut out = String::from_str("## Comments on Artifact: ");
    out.append(response.artifact_id.as_str());
    out.append("\n\n**Total:** ");
    let total = u64_string(response.comments.len() as u64);
    out.append(total.as_str());
    out.append(" comments\n\n");
    if response.comments.len() == 0 {
        out.append("No comments found matching the filter.\n");
        return out;
    }
    let ghost head = out@;
    let mut i: usize = 0;
    while i < response.comments.len()
        invariant
            i <= response.comments@.len(),
            out@ == head + comment_detail_blocks(response.comments@.take(i as int)),
        decreases response.comments@.len() - i,
    {
        let block = render_comment_detail(&response.comments[i]);
        out.append(block.as_str());
        proof {
            assert(response.comments@.take(i + 1).drop_last() =~= response.comments@.take(
                i as int,
            ));
            assert(response.comments@.take(i + 1).last() == response.comments@[i as int]);
            assert(out@ =~= head + comment_detail_blocks(response.comments@.take(i + 1)));
        }
        i = i + 1;
    }
    proof {
        assert(response.comments@.take(response.comments@.len() as int) =~= response.comments@);
    }
    out
}

/// One artifact's entry in the artifact listing; the hash is shown
/// shortened to its first eight characters.
pub open spec fn artifact_entry(a: ArtifactSummary) -> Seq<char> {
    "- **"@ + a.filename@ + "** ("@ + a.document_type@ + ")\n  ID: `"@ + a.id@ + "`\n  Lines: "@
        + dec_of_int(a.total_lines as int) + " | Hash: `"@ + clipped(a.content_hash@, 8)
        + "`\n  Updated: "@ + a.updated_at@ + "\n\n"@
}

/// The artifact entries, in order.
pub open spec fn artifact_entries(items: Seq<ArtifactSummary>) -> Seq<char>
    decreases items.len(),
{
    if items.len() == 0 {
        Seq::empty()
    } else {
        artifact_entries(items.drop_last()) + artifact_entry(items.last())
    }
}

/// The text `format_list_response` renders.
pub open spec fn list_response_text(r: DocArtifactListResponse) -> Seq<char> {
    let head = "## Artifacts in Run: "@ + r.run_id@ + "\n\n**Total:** "@ + dec_of(
        r.artifacts@.len(),
    ) + " artifacts\n\n"@;
    if r.artifacts@.len() == 0 {
        head + "No artifacts found in this run.\n"@
    } else {
        head + artifact_entries(r.artifacts@)
    }
}

/// Render one artifact entry.
fn render_artifact_summary(a: &ArtifactSummary) -> (out: String)
    ensures
        out@ == artifact_entry(*a),
{
    let mut out = String::from_str("- **");
    out.append(a.filename.as_str());
    out.append("** (");
    out.append(a.document_type.as_str());
    out.append(")\n  ID: `");
    out.append(a.id.as_str());
    out.append("`\n  Lines: ");
    let lines = i64_string(a.total_lines);
    out.append(lines.as_str());
    out.append(" | Hash: `");
    let hash = clip_string(a.content_hash.as_str(), 8);
    out.append(hash.as_str());
    out.append("`\n  Updated: ");
    out.append(a.updated_at.as_str());
    out.append("\n\n");
    out
}

/// Format an artifact listing: a header with the total, then each artifact
/// with its type, id, line count, shortened hash and update time.
pub fn format_list_response(response: &DocArtifactListResponse) -> (out: String)
    ensures
        out@ == list_response_text(*response),
{
    let mut out = String::from_str("## Artifacts in Run: ");
    out.append(response.run_id.as_str());
    out.append("\n\n**Total:** ");
    let total = u64_string(response.artifacts.len() as u64);
    out.append(total.as_str());
    out.append(" artifacts\n\n");
    if response.artifacts.len() == 0 {
        out.append("No artifacts found in this run.\n");
        return out;
    }
    let ghost head = out@;
    let mut i: usize = 0;
    while i < response.artifacts.len()
        invariant
            i <= response.artifacts@.len(),
            out@ == head + artifact_entries(response.artifacts@.take(i as int)),
        decreases response.artifacts@.len() - i,
    {
        let entry = render_artifact_summary(&response.artifacts[i]);
        out.append(entry.as_str());
        proof {
            assert(response.artifacts@.take(i + 1).drop_last() =~= response.artifacts@.take(
                i as int,
            ));
            assert(response.artifacts@.take(i + 1).last() == response.artifacts@[i as int]);
            assert(out@ =~= head + artifact_entries(response.artifacts@.take(i + 1)));
        }
        i = i + 1;
    }
    proof {
        assert(response.artifacts@.take(response.artifacts@.len() as int) =~= response.artifacts@);
    }
    out
}

/// The status icon of a suggestion.
pub open spec fn sugg_status_icon(s: Seq<char>) -> Seq<char> {
    if s == "pending"@ {
        "🟡"@
    } else if s == "accepted"@ {
        "✅"@
    } else if s == "rejected"@ {
        "❌"@
    } else {
        "⚪"@
    }
}

/// One suggestion's block in the suggestion listing.
pub open spec fn suggestion_block(s: SuggestionDetail) -> Seq<char> {
    let head = "### "@ + sugg_status_icon(s.status@) + " ["@ + s.id@ + "] - "@ + s.edit_type@
        + " (by "@ + s.suggested_by@ + ")\n"@ + "**Linked to comment:** `"@ + s.comment_id@
        + "`\n"@;
    let with_range = if s.start_offset is Some && s.end_offset is Some {
        head + "**Selection:** chars "@ + dec_of_int(s.start_offset->0 as int) + "-"@
            + dec_of_int(s.end_offset->0 as int) + "\n"@
    } else {
        head
    };
    let with_orig = match s.original_text {
        Some(t) => with_range + "**Original text:** \""@ + preview_text(t@, 100) + "\"\n"@,
        None => with_range,
    };
    let with_sugg = with_orig + "**Suggested text:** \""@ + preview_text(s.suggested_text@, 100)
        + "\"\n"@;
    let with_rat = match s.rationale {
        Some(t) => with_sugg + "**Rationale:** "@ + t@ + "\n"@,
        None => with_sugg,
    };
    let with_outcome = if s.status@ == "accepted"@ {
        let w1 = match s.accepted_by {
            Some(b) => with_rat + "**Accepted by:** "@ + b@ + "\n"@,
            None => with_rat,
        };
        match s.accepted_at {
            Some(t) => w1 + "**Accepted at:** "@ + t@ + "\n"@,
            None => w1,
        }
    } else if s.status@ == "rejected"@ {
        match s.rejection_reason {
            Some(t) => with_rat + "**Rejection reason:** "@ + t@ + "\n"@,
            None => with_rat,
        }
    } else {
        with_rat
    };
    with_outcome + "**Created:** "@ + s.created_at@ + "\n\n"@
}

/// The suggestion blocks, in order.
pub open spec fn suggestion_blocks(items: Seq<SuggestionDetail>) -> Seq<char>
    decreases items.len(),
{
    if items.len() == 0 {
        Seq::empty()
    } else {
        suggestion_blocks(items.drop_last()) + suggestion_block(items.last())
    }
}

/// The text `format_suggestions_response` renders.
pub open spec fn suggestions_response_text(r: DocArtifactListSuggestionsResponse) -> Seq<char> {
    let head = "## Edit Suggestions for Artifact: "@ + r.artifact_id@ + "\n\n**Total:** "@
        + dec_of(r.suggestions@.len()) + " suggestions\n\n"@;
    if r.suggestions@.len() == 0 {
        head + "No suggestions found matching the filter.\n"@
    } else {
        head + suggestion_blocks(r.suggestions@)
    }
}

/// Render one suggestion's block.
fn render_suggestion_detail(s: &SuggestionDetail) -> (out: String)
    ensures
        out@ == suggestion_block(*s),
{
    let mut out = String::from_str("### ");
    if str_eq(s.status.as_str(), "pending") {
        out.append("🟡");
    } else if str_eq(s.status.as_str(), "accepted") {
        out.append("✅");
    } else if str_eq(s.status.as_str(), "rejected") {
        out.append("❌");
    } else {
        out.append("⚪");
    }
    out.append(" [");
    out.append(s.id.as_str());
    out.append("] - ");
    out.append(s.edit_type.as_str());
    out.append(" (by ");
    out.append(s.suggested_by.as_str());
    out.append(")\n");
    out.append("**Linked to comment:** `");
    out.append(s.comment_id.as_str());
    out.append("`\n");
    match (s.start_offset, s.end_offset) {
        (Some(start), Some(end)) => {
            out.append("**Selection:** chars ");
            let a = i64_string(start);
            out.append(a.as_str());
            out.append("-");
            let b = i64_string(end);
            out.append(b.as_str());
            out.append("\n");
        },
        _ => {},
    }
    match &s.original_text {
        Some(t) => {
            out.append("**Original text:** \"");
            let preview = render_preview(t.as_str(), 100);
            out.append(preview.as_str());
            out.append("\"\n");
        },
        None => {},
    }
    out.append("**Suggested text:** \"");
    let sugg_preview = render_preview(s.suggested_text.as_str(), 100);
    out.append(sugg_preview.as_str());
    out.append("\"\n");
    match &s.rationale {
        Some(t) => {
            out.append("**Rationale:** ");
            out.append(t.as_str());
            out.append("\n");
        },
        None => {},
    }
    if str_eq(s.status.as_str(), "accepted") {
        match &s.accepted_by {
            Some(b) => {
                out.append("**Accepted by:** ");
                out.append(b.as_str());
                out.append("\n");
            },
            None => {},
        }
        match &s.accepted_at {
            Some(t) => {
                out.append("**Accepted at:** ");
                out.append(t.as_str());
                out.append("\n");
            },
            None => {},
        }
    } else if str_eq(s.status.as_str(), "rejected") {
        match &s.rejection_reason {
            Some(t) => {
                out.append("**Rejection reason:** ");
                out.append(t.as_str());
                out.append("\n");
            },
            None => {},
        }
    }
    out.append("**Created:** ");
    out.append(s.created_at.as_str());
    out.append("\n\n");
    out
}

/// Format a suggestion listing: a header with the total, then each
/// suggestion with its status, range, texts and outcome details.
pub fn format_suggestions_response(response: &DocArtifactListSuggestionsResponse) -> (out: String)
    ensures
        out@ == suggestions_response_text(*response),
{
    let mut out = String::from_str("## Edit Suggestions for Artifact: ");
    out.append(response.artifact_id.as_str());
    out.append("\n\n**Total:** ");
    let total = u64_string(response.suggestions.len() as u64);
    out.append(total.as_str());
    out.append(" suggestions\n\n");
    if response.suggestions.len() == 0 {
        out.append("No suggestions found matching the filter.\n");
        return out;
    }
    let ghost head = out@;
    let mut i: usize = 0;
    while i < response.suggestions.len()
        invariant
            i <= response.suggestions@.len(),
            out@ == head + suggestion_blocks(response.suggestions@.take(i as int)),
        decreases response.suggestions@.len() - i,
    {
        let block = render_suggestion_detail(&response.suggestions[i]);
        out.append(block.as_str());
        proof {
            assert(response.suggestions@.take(i + 1).drop_last() =~= response.suggestions@.take(
                i as int,
            ));
            assert(response.suggestions@.take(i + 1).last() == response.suggestions@[i as int]);
            assert(out@ =~= head + suggestion_blocks(response.suggestions@.take(i + 1)));
        }
        i = i + 1;
    }
    proof {
        assert(response.suggestions@.take(response.suggestions@.len() as int)
            =~= response.suggestions@);
    }
    out
}

/// The text `format_suggest_edit_response` renders.
pub open spec fn suggest_edit_response_text(r: DocArtifactSuggestEditResponse) -> Seq<char> {
    "✓ Suggestion created successfully\n\n**Suggestion ID:** `"@ + r.suggestion_id@
        + "`\n**Linked to comment:** `"@ + r.comment_id@ + "`\n**Artifact:** `"@ + r.artifact_id@
        + "`\n\nThe human will see a diff preview and can Accept or Reject this suggestion.\n- If accepted, the edit is applied and the linked comment is marked as addressed.\n- If rejected, no changes are made."@
}

/// Format the acknowledgement of a created suggestion.
pub fn format_suggest_edit_response(response: &DocArtifactSuggestEditResponse) -> (out: String)
    ensures
        out@ == suggest_edit_response_text(*response),
{
    let mut out = String::from_str("✓ Suggestion created successfully\n\n**Suggestion ID:** `");
    out.append(response.suggestion_id.as_str());
    out.append("`\n**Linked to comment:** `");
    out.append(response.comment_id.as_str());
    out.append("`\n**Artifact:** `");
    out.append(response.artifact_id.as_str());
    out.append(
        "`\n\nThe human will see a diff preview and can Accept or Reject this suggestion.\n- If accepted, the edit is applied and the linked comment is marked as addressed.\n- If rejected, no changes are made.",
    );
    out
}

/// The text `format_accept_suggestion_response` renders.
pub open spec fn accept_suggestion_response_text(r: DocArtifactAcceptSuggestionResponse) -> Seq<
    char,
> {
    let base = "✓ Suggestion accepted and applied\n\n**Suggestion ID:** `"@ + r.suggestion_id@
        + "`\n**New content hash:** `"@ + r.new_content_hash@ + "`\n"@;
    if r.resolved_comments@.len() > 0 {
        base + "\n**Resolved comments:** "@ + joined(string_views(r.resolved_comments@), ", "@)
            + "\n"@
    } else {
        base
    }
}

/// Format the acknowledgement of an accepted suggestion.
pub fn format_accept_suggestion_response(
    response: &DocArtifactAcceptSuggestionResponse,
) -> (out: String)
    ensures
        out@ == accept_suggestion_response_text(*response),
{
    let mut out = String::from_str(
        "✓ Suggestion accepted and applied\n\n**Suggestion ID:** `",
    );
    out.append(response.suggestion_id.as_str());
    out.append("`\n**New content hash:** `");
    out.append(response.new_content_hash.as_str());
    out.append("`\n");
    if response.resolved_comments.len() > 0 {
        out.append("\n**Resolved comments:** ");
        let ids = join_strings(&response.resolved_comments, ", ");
        out.append(ids.as_str());
        out.append("\n");
    }
    out
}

/// The text `format_reject_suggestion_response` renders.
pub open spec fn reject_suggestion_response_text(r: DocArtifactRejectSuggestionResponse) -> Seq<
    char,
> {
    "✓ Suggestion rejected\n\n**Suggestion ID:** `"@ + r.suggestion_id@
        + "`\n\nThe suggested edit was NOT applied. Consider a different approach or ask for clarification."@
}

/// Format the acknowledgement of a rejected suggestion.
pub fn format_reject_suggestion_response(
    response: &DocArtifactRejectSuggestionResponse,
) -> (out: String)
    ensures
        out@ == reject_suggestion_response_text(*response),
{
    let mut out = String::from_str("✓ Suggestion rejected\n\n**Suggestion ID:** `");
    out.append(response.suggestion_id.as_str());
    out.append(
        "`\n\nThe suggested edit was NOT applied. Consider a different approach or ask for clarification.",
    );
    out
}

} // verus!
