//! The collaboration engine: artifact storage, the edit engine, comment
//! threads and the suggestion workflow.
//!
//! One `Engine` value owns every artifact together with the comments and
//! suggestions anchored to them. Artifacts, comments and suggestions are
//! identified by the index at which they were created; nothing is ever
//! physically deleted, so identifiers stay stable.

use vstd::prelude::*;

use crate::anchor::overlaps;
use crate::anchor::rewrite_anchor;
use crate::anchor::rewrite_spec;
use crate::hash::content_hash;
use crate::hash::digest;
use crate::search::results_match;
use crate::search::search_content;
use crate::search::table_wf;
use crate::search::MatchKind;
use crate::search::SearchHit;
use crate::search::SearchScope;
use crate::text::chars_eq;
use crate::text::count_lines;
use crate::text::line_count;
use crate::text::splice;
use crate::text::splice_chars;
use crate::text::subrange_chars;

verus! {

/// The four edit operations.
#[derive(Clone, Copy, PartialEq, Eq, Structural, Debug)]
pub enum EditType {
    ReplaceRange,
    Insert,
    Append,
    FullReplace,
}

/// The kind of a review comment.
#[derive(Clone, Copy, PartialEq, Eq, Structural, Debug)]
pub enum CommentKind {
    Comment,
    Question,
    Suggestion,
    Issue,
}

/// A comment's lifecycle state; `Resolved` and `Rejected` are terminal.
#[derive(Clone, Copy, PartialEq, Eq, Structural, Debug)]
pub enum CommentStatus {
    Open,
    Resolved,
    Rejected,
}

/// A suggestion's lifecycle state; `Accepted` and `Rejected` are terminal.
#[derive(Clone, Copy, PartialEq, Eq, Structural, Debug)]
pub enum SuggestionStatus {
    Pending,
    Accepted,
    Rejected,
}

/// The actions a caller may take on an open comment.
#[derive(Clone, Copy, PartialEq, Eq, Structural, Debug)]
pub enum ResolveAction {
    Accept,
    Reject,
    Reply,
    Address,
    Resolve,
}

/// Why an operation was refused. `Conflict` and `StaleSuggestion` are
/// recoverable by re-reading and resubmitting; the others are caller bugs.
#[derive(Clone, Copy, PartialEq, Eq, Structural, Debug)]
pub enum EngineError {
    NotFound,
    InvalidRange,
    InvalidState,
    Conflict { expected: u64, actual: u64 },
    StaleSuggestion,
}

/// A stored, versioned text document.
pub struct Artifact {
    pub filename: String,
    pub document_type: String,
    pub content: Vec<char>,
    pub hash: u64,
}

/// A review comment anchored to `[sel_start, sel_end)` of its artifact.
pub struct Comment {
    pub artifact_id: usize,
    pub kind: CommentKind,
    pub status: CommentStatus,
    pub sel_start: usize,
    pub sel_end: usize,
    pub content: String,
    pub suggested_text: Option<String>,
    pub author: String,
    pub parent: Option<usize>,
    pub resolved_by: Option<String>,
    pub resolution_note: Option<String>,
}

/// A proposed edit linked to a comment, awaiting accept or reject.
pub struct Suggestion {
    pub comment_id: usize,
    pub artifact_id: usize,
    pub edit_type: EditType,
    pub start_offset: Option<usize>,
    pub end_offset: Option<usize>,
    pub original_text: Option<Vec<char>>,
    pub suggested_text: Vec<char>,
    pub rationale: Option<String>,
    pub suggested_by: String,
    pub status: SuggestionStatus,
    pub accepted_by: Option<String>,
    pub rejection_reason: Option<String>,
}

/// The engine: every artifact, comment and suggestion, identified by index.
pub struct Engine {
    pub artifacts: Vec<Artifact>,
    pub comments: Vec<Comment>,
    pub suggestions: Vec<Suggestion>,
}

/// An artifact is well formed when its hash is the digest of its content and
/// its content leaves room for one more character.
pub open spec fn artifact_wf(a: Artifact) -> bool {
    &&& a.hash == digest(a.content@)
    &&& a.content@.len() < usize::MAX
}

/// Is `c` an open comment on artifact `aid`?
pub open spec fn open_on(c: Comment, aid: int) -> bool {
    c.artifact_id == aid && c.status == CommentStatus::Open
}

/// Is `s` a pending suggestion on artifact `aid`?
pub open spec fn pending_on(s: Suggestion, aid: int) -> bool {
    s.artifact_id == aid && s.status == SuggestionStatus::Pending
}

/// The character range a suggestion anchors to, if its edit type has one:
/// the replaced range for `ReplaceRange`, the empty range at the insertion
/// point for `Insert`, none for `Append` and `FullReplace`.
pub open spec fn sugg_anchor(s: Suggestion) -> Option<(int, int)> {
    match s.edit_type {
        EditType::ReplaceRange => if s.start_offset is Some && s.end_offset is Some {
            Some((s.start_offset->0 as int, s.end_offset->0 as int))
        } else {
            None
        },
        EditType::Insert => if s.start_offset is Some {
            Some((s.start_offset->0 as int, s.start_offset->0 as int))
        } else {
            None
        },
        _ => None,
    }
}

/// Are the offsets a caller passed valid for this edit type against content
/// of length `old_len`? `Append` and `FullReplace` ignore all offsets.
pub open spec fn edit_offsets_ok(
    et: EditType,
    start_offset: Option<usize>,
    end_offset: Option<usize>,
    insert_offset: Option<usize>,
    old_len: int,
) -> bool {
    match et {
        EditType::ReplaceRange => start_offset is Some && end_offset is Some
            && start_offset->0 <= end_offset->0 <= old_len,
        EditType::Insert => insert_offset is Some && insert_offset->0 <= old_len,
        EditType::Append => true,
        EditType::FullReplace => true,
    }
}

/// The half-open range of characters an edit removes.
pub open spec fn edit_span(
    et: EditType,
    start_offset: Option<usize>,
    end_offset: Option<usize>,
    insert_offset: Option<usize>,
    old_len: int,
) -> (int, int) {
    match et {
        EditType::ReplaceRange => (start_offset->0 as int, end_offset->0 as int),
        EditType::Insert => (insert_offset->0 as int, insert_offset->0 as int),
        EditType::Append => (old_len, old_len),
        EditType::FullReplace => (0, old_len),
    }
}

/// Where an anchor lands after an edit. A `FullReplace` flags every anchor
/// and clamps it to `[0, 0)`; the other edits follow `rewrite_spec`.
pub open spec fn moved_anchor(
    start: int,
    end: int,
    full: bool,
    es: int,
    ee: int,
    ins: int,
    old_len: int,
) -> (int, int, bool) {
    if full {
        (0, 0, true)
    } else {
        rewrite_spec(start, end, es, ee, ins, old_len)
    }
}

/// A comment after an edit of its artifact: open comments have their anchor
/// rewritten; everything else about them, and every other comment, is
/// untouched.
pub open spec fn comment_after_edit(
    c: Comment,
    aid: int,
    full: bool,
    es: int,
    ee: int,
    ins: int,
    old_len: int,
) -> Comment {
    if open_on(c, aid) {
        let r = moved_anchor(c.sel_start as int, c.sel_end as int, full, es, ee, ins, old_len);
        Comment { sel_start: r.0 as usize, sel_end: r.1 as usize, ..c }
    } else {
        c
    }
}

/// A suggestion after an edit of its artifact: pending suggestions with an
/// anchor have it rewritten; everything else is untouched.
pub open spec fn sugg_after_edit(
    s: Suggestion,
    aid: int,
    full: bool,
    es: int,
    ee: int,
    ins: int,
    old_len: int,
) -> Suggestion {
    if pending_on(s, aid) && sugg_anchor(s) is Some {
        let a = sugg_anchor(s)->0;
        let r = moved_anchor(a.0, a.1, full, es, ee, ins, old_len);
        match s.edit_type {
            EditType::ReplaceRange => Suggestion {
                start_offset: Some(r.0 as usize),
                end_offset: Some(r.1 as usize),
                ..s
            },
            EditType::Insert => Suggestion { start_offset: Some(r.0 as usize), ..s },
            _ => s,
        }
    } else {
        s
    }
}

/// Was this comment's anchor flagged as affected by the edit?
pub open spec fn comment_flagged(
    c: Comment,
    aid: int,
    full: bool,
    es: int,
    ee: int,
    ins: int,
    old_len: int,
) -> bool {
    open_on(c, aid) && moved_anchor(
        c.sel_start as int,
        c.sel_end as int,
        full,
        es,
        ee,
        ins,
        old_len,
    ).2
}

/// Was this suggestion's anchor flagged as affected by the edit?
pub open spec fn sugg_flagged(
    s: Suggestion,
    aid: int,
    full: bool,
    es: int,
    ee: int,
    ins: int,
    old_len: int,
) -> bool {
    pending_on(s, aid) && sugg_anchor(s) is Some && moved_anchor(
        (sugg_anchor(s)->0).0,
        (sugg_anchor(s)->0).1,
        full,
        es,
        ee,
        ins,
        old_len,
    ).2
}

/// The ids (indices) of the comments an edit affected, in increasing order.
pub open spec fn affected_comment_ids(
    comments: Seq<Comment>,
    aid: int,
    full: bool,
    es: int,
    ee: int,
    ins: int,
    old_len: int,
) -> Seq<usize>
    decreases comments.len(),
{
    if comments.len() == 0 {
        Seq::empty()
    } else {
        let prefix = affected_comment_ids(comments.drop_last(), aid, full, es, ee, ins, old_len);
        if comment_flagged(comments.last(), aid, full, es, ee, ins, old_len) {
            prefix.push((comments.len() - 1) as usize)
        } else {
            prefix
        }
    }
}

/// The ids (indices) of the suggestions an edit affected, in increasing
/// order.
pub open spec fn affected_sugg_ids(
    suggestions: Seq<Suggestion>,
    aid: int,
    full: bool,
    es: int,
    ee: int,
    ins: int,
    old_len: int,
) -> Seq<usize>
    decreases suggestions.len(),
{
    if suggestions.len() == 0 {
        Seq::empty()
    } else {
        let prefix = affected_sugg_ids(suggestions.drop_last(), aid, full, es, ee, ins, old_len);
        if sugg_flagged(suggestions.last(), aid, full, es, ee, ins, old_len) {
            prefix.push((suggestions.len() - 1) as usize)
        } else {
            prefix
        }
    }
}

/// Does a comment pass the list filter? `None` filters match everything.
pub open spec fn comment_matches(
    c: Comment,
    aid: int,
    status: Option<CommentStatus>,
    kind: Option<CommentKind>,
) -> bool {
    &&& c.artifact_id == aid
    &&& (status is Some ==> c.status == status->0)
    &&& (kind is Some ==> c.kind == kind->0)
}

/// The ids of the comments passing the filter, in increasing order.
pub open spec fn matching_comment_ids(
    comments: Seq<Comment>,
    aid: int,
    status: Option<CommentStatus>,
    kind: Option<CommentKind>,
) -> Seq<usize>
    decreases comments.len(),
{
    if comments.len() == 0 {
        Seq::empty()
    } else {
        let prefix = matching_comment_ids(comments.drop_last(), aid, status, kind);
        if comment_matches(comments.last(), aid, status, kind) {
            prefix.push((comments.len() - 1) as usize)
        } else {
            prefix
        }
    }
}

/// Does a suggestion pass the list filter?
pub open spec fn sugg_matches(s: Suggestion, aid: int, status: Option<SuggestionStatus>) -> bool {
    &&& s.artifact_id == aid
    &&& (status is Some ==> s.status == status->0)
}

/// The ids of the suggestions passing the filter, in increasing order.
pub open spec fn matching_sugg_ids(
    suggestions: Seq<Suggestion>,
    aid: int,
    status: Option<SuggestionStatus>,
) -> Seq<usize>
    decreases suggestions.len(),
{
    if suggestions.len() == 0 {
        Seq::empty()
    } else {
        let prefix = matching_sugg_ids(suggestions.drop_last(), aid, status);
        if sugg_matches(suggestions.last(), aid, status) {
            prefix.push((suggestions.len() - 1) as usize)
        } else {
            prefix
        }
    }
}

/// A comment after a suggestion on its artifact was accepted: its anchor is
/// rewritten by the applied edit, and the comment the suggestion addressed
/// is additionally resolved if it was still open.
pub open spec fn comment_after_accept(
    c: Comment,
    j: int,
    cid: int,
    aid: int,
    full: bool,
    es: int,
    ee: int,
    ins_len: int,
    old_len: int,
    actor: String,
) -> Comment {
    let c1 = comment_after_edit(c, aid, full, es, ee, ins_len, old_len);
    if j == cid && c.status == CommentStatus::Open {
        Comment { status: CommentStatus::Resolved, resolved_by: Some(actor), ..c1 }
    } else {
        c1
    }
}

/// What a successful acceptance reports: the new content hash, the comment
/// the acceptance resolved (if it was still open), and the anchors the
/// applied edit affected.
#[derive(Debug)]
pub struct AcceptOutcome {
    pub new_hash: u64,
    pub resolved_comment: Option<usize>,
    pub affected_comments: Vec<usize>,
    pub affected_suggestions: Vec<usize>,
}

/// What a successful edit reports: the new content hash and the comments and
/// suggestions whose anchors overlapped the edit.
#[derive(Debug)]
pub struct EditOutcome {
    pub new_hash: u64,
    pub affected_comments: Vec<usize>,
    pub affected_suggestions: Vec<usize>,
}

/// Rewrite the anchor of every open comment on `artifact_id` across one
/// edit; returns the ids of the affected ones in increasing order.
fn rewrite_comment_anchors(
    comments: &mut Vec<Comment>,
    artifact_id: usize,
    full: bool,
    es: usize,
    ee: usize,
    ins_len: usize,
    old_len: usize,
) -> (aff: Vec<usize>)
    requires
        es <= ee <= old_len,
        old_len - (ee - es) + ins_len <= usize::MAX,
        forall|j: int|
            0 <= j < old(comments)@.len() && open_on(
                #[trigger] old(comments)@[j],
                artifact_id as int,
            ) ==> old(comments)@[j].sel_start <= old(comments)@[j].sel_end <= old_len,
    ensures
        final(comments)@.len() == old(comments)@.len(),
        forall|j: int|
            0 <= j < old(comments)@.len() ==> #[trigger] final(comments)@[j] == comment_after_edit(
                old(comments)@[j],
                artifact_id as int,
                full,
                es as int,
                ee as int,
                ins_len as int,
                old_len as int,
            ),
        aff@ == affected_comment_ids(
            old(comments)@,
            artifact_id as int,
            full,
            es as int,
            ee as int,
            ins_len as int,
            old_len as int,
        ),
{
    let ghost cpre = comments@;
    let mut aff: Vec<usize> = Vec::new();
    let mut i: usize = 0;
    while i < comments.len()
        invariant
            cpre == old(comments)@,
            i <= cpre.len(),
            comments@.len() == cpre.len(),
            es <= ee <= old_len,
            old_len - (ee - es) + ins_len <= usize::MAX,
            forall|j: int|
                0 <= j < cpre.len() && open_on(#[trigger] cpre[j], artifact_id as int)
                    ==> cpre[j].sel_start <= cpre[j].sel_end <= old_len,
            forall|j: int|
                0 <= j < i ==> #[trigger] comments@[j] == comment_after_edit(
                    cpre[j],
                    artifact_id as int,
                    full,
                    es as int,
                    ee as int,
                    ins_len as int,
                    old_len as int,
                ),
            forall|j: int| i <= j < cpre.len() ==> #[trigger] comments@[j] == cpre[j],
            aff@ == affected_comment_ids(
                cpre.take(i as int),
                artifact_id as int,
                full,
                es as int,
                ee as int,
                ins_len as int,
                old_len as int,
            ),
        decreases comments@.len() - i,
    {
        if comments[i].artifact_id == artifact_id && matches!(
            comments[i].status,
            CommentStatus::Open,
        ) {
            if full {
                comments[i].sel_start = 0;
                comments[i].sel_end = 0;
                aff.push(i);
            } else {
                let m = rewrite_anchor(
                    comments[i].sel_start,
                    comments[i].sel_end,
                    es,
                    ee,
                    ins_len,
                    old_len,
                );
                comments[i].sel_start = m.start;
                comments[i].sel_end = m.end;
                if m.affected {
                    aff.push(i);
                }
            }
        }
        proof {
            assert(cpre.take(i + 1).drop_last() =~= cpre.take(i as int));
            assert(cpre.take(i + 1).last() == cpre[i as int]);
        }
        i = i + 1;
    }
    proof {
        assert(cpre.take(cpre.len() as int) =~= cpre);
    }
    aff
}

/// Rewrite the anchor of every pending suggestion on `artifact_id` across
/// one edit; returns the ids of the affected ones in increasing order.
fn rewrite_sugg_anchors(
    suggestions: &mut Vec<Suggestion>,
    artifact_id: usize,
    full: bool,
    es: usize,
    ee: usize,
    ins_len: usize,
    old_len: usize,
) -> (aff: Vec<usize>)
    requires
        es <= ee <= old_len,
        old_len - (ee - es) + ins_len <= usize::MAX,
        forall|j: int|
            0 <= j < old(suggestions)@.len() ==> {
                let s = #[trigger] old(suggestions)@[j];
                &&& (s.edit_type == EditType::ReplaceRange ==> s.start_offset is Some
                    && s.end_offset is Some)
                &&& (s.edit_type == EditType::Insert ==> s.start_offset is Some)
                &&& (pending_on(s, artifact_id as int) ==> match sugg_anchor(s) {
                    Some((lo, hi)) => 0 <= lo <= hi <= old_len,
                    None => true,
                })
            },
    ensures
        final(suggestions)@.len() == old(suggestions)@.len(),
        forall|j: int|
            0 <= j < old(suggestions)@.len() ==> #[trigger] final(suggestions)@[j]
                == sugg_after_edit(
                old(suggestions)@[j],
                artifact_id as int,
                full,
                es as int,
                ee as int,
                ins_len as int,
                old_len as int,
            ),
        aff@ == affected_sugg_ids(
            old(suggestions)@,
            artifact_id as int,
            full,
            es as int,
            ee as int,
            ins_len as int,
            old_len as int,
        ),
{
    let ghost spre = suggestions@;
    let mut aff: Vec<usize> = Vec::new();
    let mut k: usize = 0;
    while k < suggestions.len()
        invariant
            spre == old(suggestions)@,
            k <= spre.len(),
            suggestions@.len() == spre.len(),
            es <= ee <= old_len,
            old_len - (ee - es) + ins_len <= usize::MAX,
            forall|j: int|
                0 <= j < spre.len() ==> {
                    let s = #[trigger] spre[j];
                    &&& (s.edit_type == EditType::ReplaceRange ==> s.start_offset is Some
                        && s.end_offset is Some)
                    &&& (s.edit_type == EditType::Insert ==> s.start_offset is Some)
                    &&& (pending_on(s, artifact_id as int) ==> match sugg_anchor(s) {
                        Some((lo, hi)) => 0 <= lo <= hi <= old_len,
                        None => true,
                    })
                },
            forall|j: int|
                0 <= j < k ==> #[trigger] suggestions@[j] == sugg_after_edit(
                    spre[j],
                    artifact_id as int,
                    full,
                    es as int,
                    ee as int,
                    ins_len as int,
                    old_len as int,
                ),
            forall|j: int| k <= j < spre.len() ==> #[trigger] suggestions@[j] == spre[j],
            aff@ == affected_sugg_ids(
                spre.take(k as int),
                artifact_id as int,
                full,
                es as int,
                ee as int,
                ins_len as int,
                old_len as int,
            ),
        decreases suggestions@.len() - k,
    {
        if suggestions[k].artifact_id == artifact_id && matches!(
            suggestions[k].status,
            SuggestionStatus::Pending,
        ) {
            match suggestions[k].edit_type {
                EditType::ReplaceRange => {
                    let lo = suggestions[k].start_offset.unwrap();
                    let hi = suggestions[k].end_offset.unwrap();
                    if full {
                        suggestions[k].start_offset = Some(0);
                        suggestions[k].end_offset = Some(0);
                        aff.push(k);
                    } else {
                        let m = rewrite_anchor(lo, hi, es, ee, ins_len, old_len);
                        suggestions[k].start_offset = Some(m.start);
                        suggestions[k].end_offset = Some(m.end);
                        if m.affected {
                            aff.push(k);
                        }
                    }
                },
                EditType::Insert => {
                    let p = suggestions[k].start_offset.unwrap();
                    if full {
                        suggestions[k].start_offset = Some(0);
                        aff.push(k);
                    } else {
                        let m = rewrite_anchor(p, p, es, ee, ins_len, old_len);
                        suggestions[k].start_offset = Some(m.start);
                        if m.affected {
                            aff.push(k);
                        }
                    }
                },
                _ => {},
            }
        }
        proof {
            assert(spre.take(k + 1).drop_last() =~= spre.take(k as int));
            assert(spre.take(k + 1).last() == spre[k as int]);
        }
        k = k + 1;
    }
    proof {
        assert(spre.take(spre.len() as int) =~= spre);
    }
    aff
}

impl Engine {
    /// Every stored id refers to an existing record, every open anchor lies
    /// inside its artifact's current content, and every reply points to an
    /// earlier comment.
    pub open spec fn wf(self) -> bool {
        &&& forall|i: int|
            0 <= i < self.artifacts@.len() ==> artifact_wf(#[trigger] self.artifacts@[i])
        &&& forall|i: int|
            0 <= i < self.comments@.len() ==> {
                let c = #[trigger] self.comments@[i];
                &&& c.artifact_id < self.artifacts@.len()
                &&& (c.status == CommentStatus::Open ==> c.sel_start <= c.sel_end
                    <= self.artifacts@[c.artifact_id as int].content@.len())
                &&& (c.parent is Some ==> c.parent->0 < i)
            }
        &&& forall|i: int|
            0 <= i < self.suggestions@.len() ==> {
                let s = #[trigger] self.suggestions@[i];
                &&& s.comment_id < self.comments@.len()
                &&& s.artifact_id < self.artifacts@.len()
                &&& (s.status == SuggestionStatus::Pending ==> match sugg_anchor(s) {
                    Some((lo, hi)) => 0 <= lo <= hi <= self.artifacts@[s.artifact_id as int].content@.len(),
                    None => true,
                })
                &&& (s.edit_type == EditType::ReplaceRange ==> s.start_offset is Some
                    && s.end_offset is Some && s.original_text is Some)
                &&& (s.edit_type == EditType::Insert ==> s.start_offset is Some)
            }
    }

    /// An engine with no artifacts, comments or suggestions.
    pub fn new() -> (e: Engine)
        ensures
            e.wf(),
            e.artifacts@.len() == 0,
            e.comments@.len() == 0,
            e.suggestions@.len() == 0,
    {
        Engine { artifacts: Vec::new(), comments: Vec::new(), suggestions: Vec::new() }
    }

    /// Create a new artifact holding `content`. Returns its id and the
    /// digest of its content; the id is the index at which all later
    /// operations find it.
    pub fn create_artifact(
        &mut self,
        filename: String,
        document_type: String,
        content: Vec<char>,
    ) -> (r: (usize, u64))
        requires
            old(self).wf(),
            content@.len() < usize::MAX,
        ensures
            final(self).wf(),
            r.0 == old(self).artifacts@.len(),
            r.1 == digest(content@),
            final(self).artifacts@ == old(self).artifacts@.push(
                Artifact {
                    filename: filename,
                    document_type: document_type,
                    content: content,
                    hash: digest(content@),
                },
            ),
            final(self).comments@ == old(self).comments@,
            final(self).suggestions@ == old(self).suggestions@,
    {
        let id = self.artifacts.len();
        let h = content_hash(content.as_slice());
        self.artifacts.push(
            Artifact { filename, document_type, content, hash: h },
        );
        (id, h)
    }

    /// How many artifacts exist; valid artifact ids are exactly `0..count`.
    pub fn artifact_count(&self) -> (n: usize)
        ensures
            n == self.artifacts@.len(),
    {
        self.artifacts.len()
    }

    /// Read an artifact: a copy of its content, its current hash and its
    /// line count. Fails with `NotFound` exactly when the id is unknown.
    pub fn read(&self, artifact_id: usize) -> (r: Result<(Vec<char>, u64, usize), EngineError>)
        requires
            self.wf(),
        ensures
            r is Ok <==> artifact_id < self.artifacts@.len(),
            r is Ok ==> {
                let a = self.artifacts@[artifact_id as int];
                &&& r->Ok_0.0@ == a.content@
                &&& r->Ok_0.1 == a.hash
                &&& r->Ok_0.1 == digest(a.content@)
                &&& r->Ok_0.2 == line_count(a.content@)
            },
            r is Err ==> r->Err_0 == EngineError::NotFound,
    {
        if artifact_id >= self.artifacts.len() {
            return Err(EngineError::NotFound);
        }
        let a = &self.artifacts[artifact_id];
        let content = subrange_chars(a.content.as_slice(), 0, a.content.len());
        proof {
            assert(a.content@.subrange(0, a.content@.len() as int) =~= a.content@);
        }
        let lines = count_lines(a.content.as_slice());
        Ok((content, a.hash, lines))
    }

    /// Everything a successful edit of artifact `aid` changes, and nothing
    /// else: the artifact's content becomes the splice, its hash the digest
    /// of the splice, and every open comment's and pending suggestion's
    /// anchor is rewritten.
    pub open spec fn edit_applied(
        pre: Engine,
        post: Engine,
        aid: int,
        full: bool,
        es: int,
        ee: int,
        ins: Seq<char>,
    ) -> bool {
        let old_len = pre.artifacts@[aid].content@.len() as int;
        let ins_len = ins.len() as int;
        let new_content = splice(pre.artifacts@[aid].content@, es, ee, ins);
        &&& post.artifacts@.len() == pre.artifacts@.len()
        &&& post.artifacts@[aid].content@ == new_content
        &&& post.artifacts@[aid].hash == digest(new_content)
        &&& post.artifacts@[aid].filename == pre.artifacts@[aid].filename
        &&& post.artifacts@[aid].document_type == pre.artifacts@[aid].document_type
        &&& forall|j: int|
            0 <= j < pre.artifacts@.len() && j != aid ==> #[trigger] post.artifacts@[j]
                == pre.artifacts@[j]
        &&& post.comments@.len() == pre.comments@.len()
        &&& forall|j: int|
            0 <= j < pre.comments@.len() ==> #[trigger] post.comments@[j] == comment_after_edit(
                pre.comments@[j],
                aid,
                full,
                es,
                ee,
                ins_len,
                old_len,
            )
        &&& post.suggestions@.len() == pre.suggestions@.len()
        &&& forall|j: int|
            0 <= j < pre.suggestions@.len() ==> #[trigger] post.suggestions@[j] == sugg_after_edit(
                pre.suggestions@[j],
                aid,
                full,
                es,
                ee,
                ins_len,
                old_len,
            )
    }

    /// A successful edit of a well-formed engine leaves it well formed:
    /// rewritten anchors always land inside the new content.
    pub proof fn lemma_edit_preserves_wf(
        pre: Engine,
        post: Engine,
        aid: int,
        full: bool,
        es: int,
        ee: int,
        ins: Seq<char>,
    )
        requires
            pre.wf(),
            0 <= aid < pre.artifacts@.len(),
            0 <= es <= ee <= pre.artifacts@[aid].content@.len(),
            pre.artifacts@[aid].content@.len() - (ee - es) + ins.len() < usize::MAX,
            Engine::edit_applied(pre, post, aid, full, es, ee, ins),
        ensures
            post.wf(),
    {
        let old_len = pre.artifacts@[aid].content@.len() as int;
        let ins_len = ins.len() as int;
        let new_len = old_len - (ee - es) + ins_len;
        assert(post.artifacts@[aid].content@.len() == new_len);
        assert forall|i: int| 0 <= i < post.comments@.len() implies {
            let c = #[trigger] post.comments@[i];
            &&& c.artifact_id < post.artifacts@.len()
            &&& (c.status == CommentStatus::Open ==> c.sel_start <= c.sel_end
                <= post.artifacts@[c.artifact_id as int].content@.len())
            &&& (c.parent is Some ==> c.parent->0 < i)
        } by {
            let c0 = pre.comments@[i];
            if open_on(c0, aid) && !full {
                if overlaps(c0.sel_start as int, c0.sel_end as int, es, ee) {
                    crate::anchor::lemma_overlapping_anchor_flagged(
                        c0.sel_start as int,
                        c0.sel_end as int,
                        es,
                        ee,
                        ins_len,
                        old_len,
                    );
                } else {
                    crate::anchor::lemma_untouched_anchor_shifts(
                        c0.sel_start as int,
                        c0.sel_end as int,
                        es,
                        ee,
                        ins_len,
                        old_len,
                    );
                }
            }
        }
        assert forall|i: int| 0 <= i < post.suggestions@.len() implies {
            let s = #[trigger] post.suggestions@[i];
            &&& s.comment_id < post.comments@.len()
            &&& s.artifact_id < post.artifacts@.len()
            &&& (s.status == SuggestionStatus::Pending ==> match sugg_anchor(s) {
                Some((lo, hi)) => 0 <= lo <= hi
                    <= post.artifacts@[s.artifact_id as int].content@.len(),
                None => true,
            })
            &&& (s.edit_type == EditType::ReplaceRange ==> s.start_offset is Some
                && s.end_offset is Some && s.original_text is Some)
            &&& (s.edit_type == EditType::Insert ==> s.start_offset is Some)
        } by {
            let s0 = pre.suggestions@[i];
            if pending_on(s0, aid) && sugg_anchor(s0) is Some && !full {
                let a = sugg_anchor(s0)->0;
                if overlaps(a.0, a.1, es, ee) {
                    crate::anchor::lemma_overlapping_anchor_flagged(
                        a.0,
                        a.1,
                        es,
                        ee,
                        ins_len,
                        old_len,
                    );
                } else {
                    crate::anchor::lemma_untouched_anchor_shifts(
                        a.0,
                        a.1,
                        es,
                        ee,
                        ins_len,
                        old_len,
                    );
                }
            }
        }
    }

    /// Apply one edit under optimistic concurrency control.
    ///
    /// The caller presents the hash of the content it last read; if the
    /// artifact has moved on, the edit is refused with `Conflict` carrying
    /// both hashes and nothing changes — at most one edit can apply per
    /// matched hash. Offsets are validated against the current content; a
    /// rejected edit never mutates anything. On success the content is
    /// replaced wholesale, anchors are rewritten, and the affected comment
    /// and suggestion ids are reported in increasing order.
    #[verifier::rlimit(100)]
    pub fn apply_edit(
        &mut self,
        artifact_id: usize,
        edit_type: EditType,
        expected_hash: u64,
        new_content: &[char],
        start_offset: Option<usize>,
        end_offset: Option<usize>,
        insert_offset: Option<usize>,
    ) -> (r: Result<EditOutcome, EngineError>)
        requires
            old(self).wf(),
        ensures
            final(self).wf(),
            ({
                let n = old(self).artifacts@.len();
                if artifact_id >= n {
                    &&& r == Err::<EditOutcome, EngineError>(EngineError::NotFound)
                    &&& *final(self) == *old(self)
                } else {
                    let a = old(self).artifacts@[artifact_id as int];
                    let old_len = a.content@.len() as int;
                    if expected_hash != a.hash {
                        &&& r == Err::<EditOutcome, EngineError>(
                            EngineError::Conflict { expected: expected_hash, actual: a.hash },
                        )
                        &&& *final(self) == *old(self)
                    } else if !edit_offsets_ok(
                        edit_type,
                        start_offset,
                        end_offset,
                        insert_offset,
                        old_len,
                    ) {
                        &&& r == Err::<EditOutcome, EngineError>(EngineError::InvalidRange)
                        &&& *final(self) == *old(self)
                    } else {
                        let span = edit_span(
                            edit_type,
                            start_offset,
                            end_offset,
                            insert_offset,
                            old_len,
                        );
                        let kept = old_len - (span.1 - span.0);
                        if kept + new_content@.len() >= usize::MAX {
                            &&& r == Err::<EditOutcome, EngineError>(EngineError::InvalidRange)
                            &&& *final(self) == *old(self)
                        } else {
                            let full = edit_type == EditType::FullReplace;
                            &&& r is Ok
                            &&& Engine::edit_applied(
                                *old(self),
                                *final(self),
                                artifact_id as int,
                                full,
                                span.0,
                                span.1,
                                new_content@,
                            )
                            &&& r->Ok_0.new_hash == digest(
                                splice(a.content@, span.0, span.1, new_content@),
                            )
                            &&& r->Ok_0.affected_comments@ == affected_comment_ids(
                                old(self).comments@,
                                artifact_id as int,
                                full,
                                span.0,
                                span.1,
                                new_content@.len() as int,
                                old_len,
                            )
                            &&& r->Ok_0.affected_suggestions@ == affected_sugg_ids(
                                old(self).suggestions@,
                                artifact_id as int,
                                full,
                                span.0,
                                span.1,
                                new_content@.len() as int,
                                old_len,
                            )
                        }
                    }
                }
            }),
    {
        let n = self.artifacts.len();
        if artifact_id >= n {
            return Err(EngineError::NotFound);
        }
        let old_hash = self.artifacts[artifact_id].hash;
        if expected_hash != old_hash {
            return Err(EngineError::Conflict { expected: expected_hash, actual: old_hash });
        }
        let old_len = self.artifacts[artifact_id].content.len();
        let es: usize;
        let ee: usize;
        match edit_type {
            EditType::ReplaceRange => {
                match (start_offset, end_offset) {
                    (Some(s), Some(e)) => {
                        if !(s <= e && e <= old_len) {
                            return Err(EngineError::InvalidRange);
                        }
                        es = s;
                        ee = e;
                    },
                    _ => {
                        return Err(EngineError::InvalidRange);
                    },
                }
            },
            EditType::Insert => {
                match insert_offset {
                    Some(p) => {
                        if p > old_len {
                            return Err(EngineError::InvalidRange);
                        }
                        es = p;
                        ee = p;
                    },
                    None => {
                        return Err(EngineError::InvalidRange);
                    },
                }
            },
            EditType::Append => {
                es = old_len;
                ee = old_len;
            },
            EditType::FullReplace => {
                es = 0;
                ee = old_len;
            },
        }
        let kept = old_len - (ee - es);
        if new_content.len() >= usize::MAX - kept {
            return Err(EngineError::InvalidRange);
        }
        let ins_len = new_content.len();
        let full = matches!(edit_type, EditType::FullReplace);
        let ghost pre = *self;
        let new_vec = splice_chars(self.artifacts[artifact_id].content.as_slice(), es, ee, new_content);
        let new_hash = content_hash(new_vec.as_slice());
        self.artifacts[artifact_id].content = new_vec;
        self.artifacts[artifact_id].hash = new_hash;

        let affected_comments = rewrite_comment_anchors(
            &mut self.comments,
            artifact_id,
            full,
            es,
            ee,
            ins_len,
            old_len,
        );
        let affected_suggestions = rewrite_sugg_anchors(
            &mut self.suggestions,
            artifact_id,
            full,
            es,
            ee,
            ins_len,
            old_len,
        );
        proof {
            Engine::lemma_edit_preserves_wf(
                pre,
                *self,
                artifact_id as int,
                full,
                es as int,
                ee as int,
                new_content@,
            );
        }
        Ok(EditOutcome { new_hash, affected_comments, affected_suggestions })
    }

    /// Create a comment (or, with `parent`, a threaded reply) anchored to
    /// `[sel_start, sel_end)` of the artifact's current content. Returns the
    /// new comment's id and the literal text under the selection, for caller
    /// confirmation. Fails with `NotFound` when the artifact or the parent
    /// is unknown or the parent sits on another artifact, and with
    /// `InvalidRange` when the selection leaves the content.
    pub fn add_comment(
        &mut self,
        artifact_id: usize,
        kind: CommentKind,
        sel_start: usize,
        sel_end: usize,
        content: String,
        suggested_text: Option<String>,
        author: String,
        parent: Option<usize>,
    ) -> (r: Result<(usize, Vec<char>), EngineError>)
        requires
            old(self).wf(),
        ensures
            final(self).wf(),
            ({
                let n = old(self).artifacts@.len();
                if artifact_id >= n {
                    &&& r == Err::<(usize, Vec<char>), EngineError>(EngineError::NotFound)
                    &&& *final(self) == *old(self)
                } else {
                    let a = old(self).artifacts@[artifact_id as int];
                    if !(sel_start <= sel_end <= a.content@.len()) {
                        &&& r == Err::<(usize, Vec<char>), EngineError>(EngineError::InvalidRange)
                        &&& *final(self) == *old(self)
                    } else if parent is Some && !(parent->0 < old(self).comments@.len()
                        && old(self).comments@[parent->0 as int].artifact_id == artifact_id) {
                        &&& r == Err::<(usize, Vec<char>), EngineError>(EngineError::NotFound)
                        &&& *final(self) == *old(self)
                    } else {
                        &&& r is Ok
                        &&& r->Ok_0.0 == old(self).comments@.len()
                        &&& r->Ok_0.1@ == a.content@.subrange(sel_start as int, sel_end as int)
                        &&& final(self).comments@ == old(self).comments@.push(
                            Comment {
                                artifact_id,
                                kind,
                                status: CommentStatus::Open,
                                sel_start,
                                sel_end,
                                content,
                                suggested_text,
                                author,
                                parent,
                                resolved_by: None,
                                resolution_note: None,
                            },
                        )
                        &&& final(self).artifacts@ == old(self).artifacts@
                        &&& final(self).suggestions@ == old(self).suggestions@
                    }
                }
            }),
    {
        if artifact_id >= self.artifacts.len() {
            return Err(EngineError::NotFound);
        }
        let content_len = self.artifacts[artifact_id].content.len();
        if !(sel_start <= sel_end && sel_end <= content_len) {
            return Err(EngineError::InvalidRange);
        }
        match parent {
            Some(p) => {
                if !(p < self.comments.len()) {
                    return Err(EngineError::NotFound);
                }
                if self.comments[p].artifact_id != artifact_id {
                    return Err(EngineError::NotFound);
                }
            },
            None => {},
        }
        let id = self.comments.len();
        let selection = subrange_chars(
            self.artifacts[artifact_id].content.as_slice(),
            sel_start,
            sel_end,
        );
        self.comments.push(
            Comment {
                artifact_id,
                kind,
                status: CommentStatus::Open,
                sel_start,
                sel_end,
                content,
                suggested_text,
                author,
                parent,
                resolved_by: None,
                resolution_note: None,
            },
        );
        Ok((id, selection))
    }

    /// Act on an open comment. `Accept` records approval and leaves the
    /// thread open; `Reply` creates a child comment and leaves the parent
    /// open; `Reject` closes the thread as rejected; `Address` and its
    /// legacy alias `Resolve` close it as resolved. Acting on a comment that
    /// is not open fails with `InvalidState` and changes nothing.
    pub fn resolve_comment(
        &mut self,
        comment_id: usize,
        action: ResolveAction,
        note: Option<String>,
        resolved_by: String,
    ) -> (r: Result<(CommentStatus, Option<usize>), EngineError>)
        requires
            old(self).wf(),
        ensures
            final(self).wf(),
            ({
                if comment_id >= old(self).comments@.len() {
                    &&& r == Err::<(CommentStatus, Option<usize>), EngineError>(
                        EngineError::NotFound,
                    )
                    &&& *final(self) == *old(self)
                } else {
                    let c = old(self).comments@[comment_id as int];
                    if c.status != CommentStatus::Open {
                        &&& r == Err::<(CommentStatus, Option<usize>), EngineError>(
                            EngineError::InvalidState,
                        )
                        &&& *final(self) == *old(self)
                    } else {
                        match action {
                            ResolveAction::Accept => {
                                &&& r == Ok::<(CommentStatus, Option<usize>), EngineError>(
                                    (CommentStatus::Open, None),
                                )
                                &&& *final(self) == *old(self)
                            },
                            ResolveAction::Reply => {
                                let reply = final(self).comments@.last();
                                &&& r is Ok
                                &&& r->Ok_0.0 == CommentStatus::Open
                                &&& r->Ok_0.1 == Some(old(self).comments@.len() as usize)
                                &&& final(self).comments@.len() == old(self).comments@.len() + 1
                                &&& final(self).comments@.take(old(self).comments@.len() as int)
                                    == old(self).comments@
                                &&& reply.artifact_id == c.artifact_id
                                &&& reply.kind == CommentKind::Comment
                                &&& reply.status == CommentStatus::Open
                                &&& reply.sel_start == c.sel_start
                                &&& reply.sel_end == c.sel_end
                                &&& reply.suggested_text is None
                                &&& reply.author == resolved_by
                                &&& reply.parent == Some(comment_id)
                                &&& reply.resolved_by is None
                                &&& reply.resolution_note is None
                                &&& (note is Some ==> reply.content == note->0)
                                &&& (note is None ==> reply.content@ == Seq::<char>::empty())
                                &&& final(self).artifacts@ == old(self).artifacts@
                                &&& final(self).suggestions@ == old(self).suggestions@
                            },
                            _ => {
                                let status = if action == ResolveAction::Reject {
                                    CommentStatus::Rejected
                                } else {
                                    CommentStatus::Resolved
                                };
                                &&& r == Ok::<(CommentStatus, Option<usize>), EngineError>(
                                    (status, None),
                                )
                                &&& final(self).comments@ == old(self).comments@.update(
                                    comment_id as int,
                                    Comment {
                                        status,
                                        resolved_by: Some(resolved_by),
                                        resolution_note: note,
                                        ..c
                                    },
                                )
                                &&& final(self).artifacts@ == old(self).artifacts@
                                &&& final(self).suggestions@ == old(self).suggestions@
                            },
                        }
                    }
                }
            }),
    {
        if comment_id >= self.comments.len() {
            return Err(EngineError::NotFound);
        }
        if !matches!(self.comments[comment_id].status, CommentStatus::Open) {
            return Err(EngineError::InvalidState);
        }
        match action {
            ResolveAction::Accept => Ok((CommentStatus::Open, None)),
            ResolveAction::Reply => {
                let reply_id = self.comments.len();
                let text = match note {
                    Some(t) => t,
                    None => String::new(),
                };
                let reply = Comment {
                    artifact_id: self.comments[comment_id].artifact_id,
                    kind: CommentKind::Comment,
                    status: CommentStatus::Open,
                    sel_start: self.comments[comment_id].sel_start,
                    sel_end: self.comments[comment_id].sel_end,
                    content: text,
                    suggested_text: None,
                    author: resolved_by,
                    parent: Some(comment_id),
                    resolved_by: None,
                    resolution_note: None,
                };
                self.comments.push(reply);
                Ok((CommentStatus::Open, Some(reply_id)))
            },
            ResolveAction::Reject => {
                self.comments[comment_id].status = CommentStatus::Rejected;
                self.comments[comment_id].resolved_by = Some(resolved_by);
                self.comments[comment_id].resolution_note = note;
                Ok((CommentStatus::Rejected, None))
            },
            ResolveAction::Address | ResolveAction::Resolve => {
                self.comments[comment_id].status = CommentStatus::Resolved;
                self.comments[comment_id].resolved_by = Some(resolved_by);
                self.comments[comment_id].resolution_note = note;
                Ok((CommentStatus::Resolved, None))
            },
        }
    }

    /// Propose an edit addressing an open comment. For `ReplaceRange` the
    /// current text under `[start_offset, end_offset)` is captured as a
    /// snapshot for later diff display and accept-time re-validation. The
    /// suggestion is created `Pending`; returns its id.
    pub fn suggest_edit(
        &mut self,
        artifact_id: usize,
        comment_id: usize,
        edit_type: EditType,
        start_offset: Option<usize>,
        end_offset: Option<usize>,
        suggested_text: Vec<char>,
        rationale: Option<String>,
        author: String,
    ) -> (r: Result<usize, EngineError>)
        requires
            old(self).wf(),
        ensures
            final(self).wf(),
            ({
                if artifact_id >= old(self).artifacts@.len() || !(comment_id < old(
                    self,
                ).comments@.len() && old(self).comments@[comment_id as int].artifact_id
                    == artifact_id) {
                    &&& r == Err::<usize, EngineError>(EngineError::NotFound)
                    &&& *final(self) == *old(self)
                } else if old(self).comments@[comment_id as int].status != CommentStatus::Open {
                    &&& r == Err::<usize, EngineError>(EngineError::InvalidState)
                    &&& *final(self) == *old(self)
                } else {
                    let a = old(self).artifacts@[artifact_id as int];
                    let range_ok = match edit_type {
                        EditType::ReplaceRange => start_offset is Some && end_offset is Some
                            && start_offset->0 <= end_offset->0 <= a.content@.len(),
                        EditType::Insert => start_offset is Some && start_offset->0
                            <= a.content@.len(),
                        _ => true,
                    };
                    if !range_ok {
                        &&& r == Err::<usize, EngineError>(EngineError::InvalidRange)
                        &&& *final(self) == *old(self)
                    } else {
                        let stored_start = match edit_type {
                            EditType::ReplaceRange => start_offset,
                            EditType::Insert => start_offset,
                            _ => None,
                        };
                        let stored_end = match edit_type {
                            EditType::ReplaceRange => end_offset,
                            _ => None,
                        };
                        let snapshot = final(self).suggestions@.last().original_text;
                        &&& r == Ok::<usize, EngineError>(old(self).suggestions@.len() as usize)
                        &&& final(self).suggestions@.len() == old(self).suggestions@.len() + 1
                        &&& final(self).suggestions@.take(old(self).suggestions@.len() as int)
                            == old(self).suggestions@
                        &&& final(self).suggestions@.last() == Suggestion {
                            comment_id,
                            artifact_id,
                            edit_type,
                            start_offset: stored_start,
                            end_offset: stored_end,
                            original_text: snapshot,
                            suggested_text,
                            rationale,
                            suggested_by: author,
                            status: SuggestionStatus::Pending,
                            accepted_by: None,
                            rejection_reason: None,
                        }
                        &&& (edit_type == EditType::ReplaceRange ==> snapshot is Some
                            && snapshot->0@ == a.content@.subrange(
                            start_offset->0 as int,
                            end_offset->0 as int,
                        ))
                        &&& (edit_type != EditType::ReplaceRange ==> snapshot is None)
                        &&& final(self).artifacts@ == old(self).artifacts@
                        &&& final(self).comments@ == old(self).comments@
                    }
                }
            }),
    {
        if artifact_id >= self.artifacts.len() {
            return Err(EngineError::NotFound);
        }
        if !(comment_id < self.comments.len()) {
            return Err(EngineError::NotFound);
        }
        if self.comments[comment_id].artifact_id != artifact_id {
            return Err(EngineError::NotFound);
        }
        if !matches!(self.comments[comment_id].status, CommentStatus::Open) {
            return Err(EngineError::InvalidState);
        }
        let content_len = self.artifacts[artifact_id].content.len();
        let stored_start: Option<usize>;
        let stored_end: Option<usize>;
        let original_text: Option<Vec<char>>;
        match edit_type {
            EditType::ReplaceRange => {
                match (start_offset, end_offset) {
                    (Some(s), Some(e)) => {
                        if !(s <= e && e <= content_len) {
                            return Err(EngineError::InvalidRange);
                        }
                        stored_start = Some(s);
                        stored_end = Some(e);
                        original_text = Some(
                            subrange_chars(self.artifacts[artifact_id].content.as_slice(), s, e),
                        );
                    },
                    _ => {
                        return Err(EngineError::InvalidRange);
                    },
                }
            },
            EditType::Insert => {
                match start_offset {
                    Some(p) => {
                        if p > content_len {
                            return Err(EngineError::InvalidRange);
                        }
                        stored_start = Some(p);
                        stored_end = None;
                        original_text = None;
                    },
                    None => {
                        return Err(EngineError::InvalidRange);
                    },
                }
            },
            _ => {
                stored_start = None;
                stored_end = None;
                original_text = None;
            },
        }
        let id = self.suggestions.len();
        self.suggestions.push(
            Suggestion {
                comment_id,
                artifact_id,
                edit_type,
                start_offset: stored_start,
                end_offset: stored_end,
                original_text,
                suggested_text,
                rationale,
                suggested_by: author,
                status: SuggestionStatus::Pending,
                accepted_by: None,
                rejection_reason: None,
            },
        );
        Ok(id)
    }

    /// Reject a pending suggestion. The suggestion becomes `Rejected` with
    /// the given reason; the linked comment's status is not touched, and the
    /// artifact is never modified.
    pub fn reject_suggestion(
        &mut self,
        suggestion_id: usize,
        reason: Option<String>,
        actor: String,
    ) -> (r: Result<(), EngineError>)
        requires
            old(self).wf(),
        ensures
            final(self).wf(),
            ({
                if suggestion_id >= old(self).suggestions@.len() {
                    &&& r == Err::<(), EngineError>(EngineError::NotFound)
                    &&& *final(self) == *old(self)
                } else {
                    let s = old(self).suggestions@[suggestion_id as int];
                    if s.status != SuggestionStatus::Pending {
                        &&& r == Err::<(), EngineError>(EngineError::InvalidState)
                        &&& *final(self) == *old(self)
                    } else {
                        &&& r is Ok
                        &&& final(self).suggestions@ == old(self).suggestions@.update(
                            suggestion_id as int,
                            Suggestion {
                                status: SuggestionStatus::Rejected,
                                rejection_reason: reason,
                                ..s
                            },
                        )
                        &&& final(self).artifacts@ == old(self).artifacts@
                        &&& final(self).comments@ == old(self).comments@
                    }
                }
            }),
    {
        if suggestion_id >= self.suggestions.len() {
            return Err(EngineError::NotFound);
        }
        if !matches!(self.suggestions[suggestion_id].status, SuggestionStatus::Pending) {
            return Err(EngineError::InvalidState);
        }
        self.suggestions[suggestion_id].status = SuggestionStatus::Rejected;
        self.suggestions[suggestion_id].rejection_reason = reason;
        Ok(())
    }

    /// Accept a pending suggestion and apply its edit.
    ///
    /// The edit is re-validated against the artifact's *current* content,
    /// not the content at proposal time: for a `ReplaceRange` suggestion the
    /// text now under its (anchor-maintained) range must still equal the
    /// snapshot captured at proposal. If it does not, acceptance fails with
    /// `StaleSuggestion`, the suggestion stays `Pending` and nothing
    /// changes. On success the suggestion becomes `Accepted`, the edit is
    /// applied exactly as `apply_edit` would apply it, and the linked
    /// comment is resolved if it was still open.
    #[verifier::rlimit(100)]
    pub fn accept_suggestion(&mut self, suggestion_id: usize, actor: String) -> (r: Result<
        AcceptOutcome,
        EngineError,
    >)
        requires
            old(self).wf(),
        ensures
            final(self).wf(),
            ({
                if suggestion_id >= old(self).suggestions@.len() {
                    &&& r == Err::<AcceptOutcome, EngineError>(EngineError::NotFound)
                    &&& *final(self) == *old(self)
                } else {
                    let s = old(self).suggestions@[suggestion_id as int];
                    if s.status != SuggestionStatus::Pending {
                        &&& r == Err::<AcceptOutcome, EngineError>(EngineError::InvalidState)
                        &&& *final(self) == *old(self)
                    } else {
                        let aid = s.artifact_id as int;
                        let a = old(self).artifacts@[aid];
                        let old_len = a.content@.len() as int;
                        let span = edit_span(
                            s.edit_type,
                            s.start_offset,
                            s.end_offset,
                            s.start_offset,
                            old_len,
                        );
                        let stale = s.edit_type == EditType::ReplaceRange && a.content@.subrange(
                            span.0,
                            span.1,
                        ) != s.original_text->0@;
                        if stale {
                            &&& r == Err::<AcceptOutcome, EngineError>(
                                EngineError::StaleSuggestion,
                            )
                            &&& *final(self) == *old(self)
                        } else if old_len - (span.1 - span.0) + s.suggested_text@.len()
                            >= usize::MAX {
                            &&& r == Err::<AcceptOutcome, EngineError>(EngineError::InvalidRange)
                            &&& *final(self) == *old(self)
                        } else {
                            let full = s.edit_type == EditType::FullReplace;
                            let ins = s.suggested_text@;
                            let new_content = splice(a.content@, span.0, span.1, ins);
                            let accepted = Suggestion {
                                status: SuggestionStatus::Accepted,
                                accepted_by: Some(actor),
                                ..s
                            };
                            let mid_suggs = old(self).suggestions@.update(
                                suggestion_id as int,
                                accepted,
                            );
                            &&& r is Ok
                            &&& r->Ok_0.new_hash == digest(new_content)
                            &&& final(self).artifacts@.len() == old(self).artifacts@.len()
                            &&& final(self).artifacts@[aid].content@ == new_content
                            &&& final(self).artifacts@[aid].hash == digest(new_content)
                            &&& final(self).artifacts@[aid].filename == a.filename
                            &&& final(self).artifacts@[aid].document_type == a.document_type
                            &&& forall|j: int|
                                0 <= j < old(self).artifacts@.len() && j != aid
                                    ==> #[trigger] final(self).artifacts@[j] == old(self).artifacts@[j]
                            &&& final(self).comments@.len() == old(self).comments@.len()
                            &&& forall|j: int|
                                0 <= j < old(self).comments@.len() ==> #[trigger] final(self).comments@[j] == comment_after_accept(
                                    old(self).comments@[j],
                                    j,
                                    s.comment_id as int,
                                    aid,
                                    full,
                                    span.0,
                                    span.1,
                                    ins.len() as int,
                                    old_len,
                                    actor,
                                )
                            &&& r->Ok_0.resolved_comment == (
                            if old(self).comments@[s.comment_id as int].status
                                == CommentStatus::Open {
                                Some(s.comment_id)
                            } else {
                                None::<usize>
                            })
                            &&& final(self).suggestions@.len() == old(self).suggestions@.len()
                            &&& forall|j: int|
                                0 <= j < old(self).suggestions@.len() ==> #[trigger] final(self).suggestions@[j] == sugg_after_edit(
                                    mid_suggs[j],
                                    aid,
                                    full,
                                    span.0,
                                    span.1,
                                    ins.len() as int,
                                    old_len,
                                )
                            &&& r->Ok_0.affected_comments@ == affected_comment_ids(
                                old(self).comments@,
                                aid,
                                full,
                                span.0,
                                span.1,
                                ins.len() as int,
                                old_len,
                            )
                            &&& r->Ok_0.affected_suggestions@ == affected_sugg_ids(
                                mid_suggs,
                                aid,
                                full,
                                span.0,
                                span.1,
                                ins.len() as int,
                                old_len,
                            )
                        }
                    }
                }
            }),
    {
        if suggestion_id >= self.suggestions.len() {
            return Err(EngineError::NotFound);
        }
        if !matches!(self.suggestions[suggestion_id].status, SuggestionStatus::Pending) {
            return Err(EngineError::InvalidState);
        }
        let aid = self.suggestions[suggestion_id].artifact_id;
        let cid = self.suggestions[suggestion_id].comment_id;
        let et = self.suggestions[suggestion_id].edit_type;
        let old_len = self.artifacts[aid].content.len();
        let es: usize;
        let ee: usize;
        match et {
            EditType::ReplaceRange => {
                es = self.suggestions[suggestion_id].start_offset.unwrap();
                ee = self.suggestions[suggestion_id].end_offset.unwrap();
            },
            EditType::Insert => {
                es = self.suggestions[suggestion_id].start_offset.unwrap();
                ee = es;
            },
            EditType::Append => {
                es = old_len;
                ee = old_len;
            },
            EditType::FullReplace => {
                es = 0;
                ee = old_len;
            },
        }
        if matches!(et, EditType::ReplaceRange) {
            let cur = subrange_chars(self.artifacts[aid].content.as_slice(), es, ee);
            let same = match &self.suggestions[suggestion_id].original_text {
                Some(snap) => chars_eq(cur.as_slice(), snap.as_slice()),
                None => false,
            };
            if !same {
                return Err(EngineError::StaleSuggestion);
            }
        }
        let kept = old_len - (ee - es);
        let text_len = self.suggestions[suggestion_id].suggested_text.len();
        if text_len >= usize::MAX - kept {
            return Err(EngineError::InvalidRange);
        }
        let cur_hash = self.artifacts[aid].hash;
        let start_opt = self.suggestions[suggestion_id].start_offset;
        let end_opt = self.suggestions[suggestion_id].end_offset;
        let text = subrange_chars(
            self.suggestions[suggestion_id].suggested_text.as_slice(),
            0,
            text_len,
        );
        proof {
            assert(text@ =~= old(self).suggestions@[suggestion_id as int].suggested_text@);
        }
        self.suggestions[suggestion_id].status = SuggestionStatus::Accepted;
        self.suggestions[suggestion_id].accepted_by = Some(actor.clone());
        proof {
            assert(self.suggestions@ =~= old(self).suggestions@.update(
                suggestion_id as int,
                Suggestion {
                    status: SuggestionStatus::Accepted,
                    accepted_by: Some(actor),
                    ..old(self).suggestions@[suggestion_id as int]
                },
            ));
        }
        let res = self.apply_edit(aid, et, cur_hash, text.as_slice(), start_opt, end_opt, start_opt);
        let out = match res {
            Ok(o) => o,
            Err(_) => {
                proof {
                    assert(false);
                }
                return Err(EngineError::InvalidState);
            },
        };
        let resolved_comment: Option<usize>;
        if matches!(self.comments[cid].status, CommentStatus::Open) {
            self.comments[cid].status = CommentStatus::Resolved;
            self.comments[cid].resolved_by = Some(actor);
            resolved_comment = Some(cid);
        } else {
            resolved_comment = None;
        }
        Ok(
            AcceptOutcome {
                new_hash: out.new_hash,
                resolved_comment,
                affected_comments: out.affected_comments,
                affected_suggestions: out.affected_suggestions,
            },
        )
    }

    /// List the ids of the comments on an artifact, optionally filtered by
    /// status and kind, in creation order.
    pub fn list_comments(
        &self,
        artifact_id: usize,
        status: Option<CommentStatus>,
        kind: Option<CommentKind>,
    ) -> (r: Result<Vec<usize>, EngineError>)
        ensures
            r is Ok <==> artifact_id < self.artifacts@.len(),
            r is Ok ==> r->Ok_0@ == matching_comment_ids(
                self.comments@,
                artifact_id as int,
                status,
                kind,
            ),
            r is Err ==> r->Err_0 == EngineError::NotFound,
    {
        if artifact_id >= self.artifacts.len() {
            return Err(EngineError::NotFound);
        }
        let mut ids: Vec<usize> = Vec::new();
        let mut i: usize = 0;
        while i < self.comments.len()
            invariant
                i <= self.comments@.len(),
                ids@ == matching_comment_ids(
                    self.comments@.take(i as int),
                    artifact_id as int,
                    status,
                    kind,
                ),
            decreases self.comments@.len() - i,
        {
            let c = &self.comments[i];
            let status_ok = match status {
                Some(want) => c.status == want,
                None => true,
            };
            let kind_ok = match kind {
                Some(want) => c.kind == want,
                None => true,
            };
            if c.artifact_id == artifact_id && status_ok && kind_ok {
                ids.push(i);
            }
            proof {
                assert(self.comments@.take(i + 1).drop_last() =~= self.comments@.take(i as int));
                assert(self.comments@.take(i + 1).last() == self.comments@[i as int]);
            }
            i = i + 1;
        }
        proof {
            assert(self.comments@.take(self.comments@.len() as int) =~= self.comments@);
        }
        Ok(ids)
    }

    /// List the ids of the suggestions on an artifact, optionally filtered
    /// by status, in creation order.
    pub fn list_suggestions(
        &self,
        artifact_id: usize,
        status: Option<SuggestionStatus>,
    ) -> (r: Result<Vec<usize>, EngineError>)
        ensures
            r is Ok <==> artifact_id < self.artifacts@.len(),
            r is Ok ==> r->Ok_0@ == matching_sugg_ids(
                self.suggestions@,
                artifact_id as int,
                status,
            ),
            r is Err ==> r->Err_0 == EngineError::NotFound,
    {
        if artifact_id >= self.artifacts.len() {
            return Err(EngineError::NotFound);
        }
        let mut ids: Vec<usize> = Vec::new();
        let mut i: usize = 0;
        while i < self.suggestions.len()
            invariant
                i <= self.suggestions@.len(),
                ids@ == matching_sugg_ids(
                    self.suggestions@.take(i as int),
                    artifact_id as int,
                    status,
                ),
            decreases self.suggestions@.len() - i,
        {
            let s = &self.suggestions[i];
            let status_ok = match status {
                Some(want) => s.status == want,
                None => true,
            };
            if s.artifact_id == artifact_id && status_ok {
                ids.push(i);
            }
            proof {
                assert(self.suggestions@.take(i + 1).drop_last() =~= self.suggestions@.take(
                    i as int,
                ));
                assert(self.suggestions@.take(i + 1).last() == self.suggestions@[i as int]);
            }
            i = i + 1;
        }
        proof {
            assert(self.suggestions@.take(self.suggestions@.len() as int) =~= self.suggestions@);
        }
        Ok(ids)
    }

    /// Search an artifact's current content, read-only: nothing about the
    /// engine changes, and the hits render exactly the expected matches of
    /// the chosen kind over the content's line table.
    pub fn search(
        &self,
        artifact_id: usize,
        query: &[char],
        kind: MatchKind,
        scope: SearchScope,
        context_lines: usize,
        max_results: usize,
    ) -> (r: Result<Vec<SearchHit>, EngineError>)
        requires
            self.wf(),
        ensures
            r is Ok <==> artifact_id < self.artifacts@.len(),
            r is Err ==> r->Err_0 == EngineError::NotFound,
            r is Ok ==> forall|table: Seq<(usize, usize)>|
                table_wf(self.artifacts@[artifact_id as int].content@, table) ==> results_match(
                    self.artifacts@[artifact_id as int].content@,
                    table,
                    query@,
                    kind,
                    scope,
                    context_lines as int,
                    max_results as int,
                    r->Ok_0@,
                ),
    {
        if artifact_id >= self.artifacts.len() {
            return Err(EngineError::NotFound);
        }
        let hits = search_content(
            self.artifacts[artifact_id].content.as_slice(),
            query,
            kind,
            scope,
            context_lines,
            max_results,
        );
        Ok(hits)
    }
}

/// Law: an edit never changes any comment's status — an anchor that
/// overlapped the edit is flagged and clamped, never silently resolved or
/// rejected.
pub proof fn lemma_edit_never_resolves(
    c: Comment,
    aid: int,
    full: bool,
    es: int,
    ee: int,
    ins: int,
    old_len: int,
)
    ensures
        comment_after_edit(c, aid, full, es, ee, ins, old_len).status == c.status,
        comment_after_edit(c, aid, full, es, ee, ins, old_len).resolved_by == c.resolved_by,
{
}

/// Law: in a well-formed engine every artifact's stored hash is exactly the
/// digest of its current content, so a caller that reads content `C` and
/// hash `H` can check `digest(C) == H` locally and it always holds.
pub proof fn lemma_stored_hash_is_content_digest(e: Engine, i: int)
    requires
        e.wf(),
        0 <= i < e.artifacts@.len(),
    ensures
        e.artifacts@[i].hash == digest(e.artifacts@[i].content@),
{
}

} // verus!
