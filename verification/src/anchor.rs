//! Anchor maintenance.
//!
//! A comment or suggestion anchors to a half-open character range
//! `[start, end)` of an artifact's content. When an edit removes
//! `[edit_start, edit_end)` and inserts `ins_len` characters, every open
//! anchor is rewritten: anchors entirely before the edit are unchanged,
//! anchors entirely after shift by the edit's length delta, and anchors that
//! overlap the edited range are flagged as affected and clamped so that
//! `0 <= start <= end <= new_len` still holds.

use vstd::prelude::*;

verus! {

/// Does `[start, end)` overlap the edited range `[edit_start, edit_end)`?
/// An anchor ending at or before the edit's start, or starting at or after
/// its end, does not overlap.
pub open spec fn overlaps(start: int, end: int, edit_start: int, edit_end: int) -> bool {
    !(end <= edit_start) && !(start >= edit_end)
}

/// The anchor that results from rewriting `[start, end)` across an edit that
/// replaced `[edit_start, edit_end)` with `ins_len` characters, and whether
/// the anchor was flagged as affected.
pub open spec fn rewrite_spec(
    start: int,
    end: int,
    edit_start: int,
    edit_end: int,
    ins_len: int,
    old_len: int,
) -> (int, int, bool) {
    let delta = ins_len - (edit_end - edit_start);
    let new_len = old_len + delta;
    if end <= edit_start {
        (start, end, false)
    } else if start >= edit_end {
        (start + delta, end + delta, false)
    } else {
        let ns = if start < edit_start {
            start
        } else {
            edit_start
        };
        let shifted = end + delta;
        let ne_lo = if shifted > ns {
            shifted
        } else {
            ns
        };
        let ne = if ne_lo < new_len {
            ne_lo
        } else {
            new_len
        };
        (ns, ne, true)
    }
}

/// A rewritten anchor: its new range and whether the edit affected it.
pub struct AnchorMove {
    pub start: usize,
    pub end: usize,
    pub affected: bool,
}

/// Rewrite one anchor across one edit, as `rewrite_spec` describes.
pub fn rewrite_anchor(
    start: usize,
    end: usize,
    edit_start: usize,
    edit_end: usize,
    ins_len: usize,
    old_len: usize,
) -> (r: AnchorMove)
    requires
        start <= end <= old_len,
        edit_start <= edit_end <= old_len,
        old_len - (edit_end - edit_start) + ins_len <= usize::MAX,
    ensures
        (r.start as int, r.end as int, r.affected) == rewrite_spec(
            start as int,
            end as int,
            edit_start as int,
            edit_end as int,
            ins_len as int,
            old_len as int,
        ),
        r.start <= r.end <= old_len - (edit_end - edit_start) + ins_len,
{
    let removed = edit_end - edit_start;
    if end <= edit_start {
        AnchorMove { start, end, affected: false }
    } else if start >= edit_end {
        AnchorMove {
            start: start - removed + ins_len,
            end: end - removed + ins_len,
            affected: false,
        }
    } else {
        let ns = if start < edit_start {
            start
        } else {
            edit_start
        };
        let ne = if end >= edit_end {
            end - edit_end + edit_start + ins_len
        } else {
            let gap = edit_end - end;
            if edit_start + ins_len >= gap {
                let shifted = edit_start + ins_len - gap;
                if shifted >= ns {
                    shifted
                } else {
                    ns
                }
            } else {
                ns
            }
        };
        AnchorMove { start: ns, end: ne, affected: true }
    }
}

/// An anchor that does not overlap an edit is never flagged, keeps its length,
/// shifts by exactly the edit's length delta when it lies after the edit and
/// not at all when it lies before, and stays inside `[0, new_len]`.
pub proof fn lemma_untouched_anchor_shifts(
    start: int,
    end: int,
    edit_start: int,
    edit_end: int,
    ins_len: int,
    old_len: int,
)
    requires
        0 <= start <= end <= old_len,
        0 <= edit_start <= edit_end <= old_len,
        0 <= ins_len,
        !overlaps(start, end, edit_start, edit_end),
    ensures
        ({
            let delta = ins_len - (edit_end - edit_start);
            let r = rewrite_spec(start, end, edit_start, edit_end, ins_len, old_len);
            &&& !r.2
            &&& r.1 - r.0 == end - start
            &&& (end <= edit_start ==> r.0 == start && r.1 == end)
            &&& (!(end <= edit_start) ==> r.0 == start + delta && r.1 == end + delta)
            &&& 0 <= r.0 <= r.1 <= old_len + delta
        }),
{
}

/// An anchor that overlaps an edit is always flagged as affected, and its
/// clamped range still satisfies `0 <= start <= end <= new_len`.
pub proof fn lemma_overlapping_anchor_flagged(
    start: int,
    end: int,
    edit_start: int,
    edit_end: int,
    ins_len: int,
    old_len: int,
)
    requires
        0 <= start <= end <= old_len,
        0 <= edit_start <= edit_end <= old_len,
        0 <= ins_len,
        overlaps(start, end, edit_start, edit_end),
    ensures
        ({
            let r = rewrite_spec(start, end, edit_start, edit_end, ins_len, old_len);
            &&& r.2
            &&& 0 <= r.0 <= r.1 <= old_len - (edit_end - edit_start) + ins_len
        }),
{
}

/// One edit of a longer editing session: the range it removed and the length
/// of the text it inserted.
pub struct EditSpan {
    pub start: int,
    pub end: int,
    pub ins_len: int,
}

/// The anchor and content length that result from rewriting an anchor across
/// each edit of `edits` in turn.
pub open spec fn rewrite_seq(
    start: int,
    end: int,
    edits: Seq<EditSpan>,
    len: int,
) -> (int, int, int)
    decreases edits.len(),
{
    if edits.len() == 0 {
        (start, end, len)
    } else {
        let e = edits[0];
        let r = rewrite_spec(start, end, e.start, e.end, e.ins_len, len);
        rewrite_seq(r.0, r.1, edits.drop_first(), len - (e.end - e.start) + e.ins_len)
    }
}

/// Every edit of the sequence is well-formed against the content length at
/// its turn.
pub open spec fn edits_valid(edits: Seq<EditSpan>, len: int) -> bool
    decreases edits.len(),
{
    if edits.len() == 0 {
        true
    } else {
        let e = edits[0];
        &&& 0 <= e.start <= e.end <= len
        &&& 0 <= e.ins_len
        &&& edits_valid(edits.drop_first(), len - (e.end - e.start) + e.ins_len)
    }
}

/// No edit of the sequence overlaps the anchor at the position it holds when
/// that edit lands.
pub open spec fn edits_avoid(start: int, end: int, edits: Seq<EditSpan>, len: int) -> bool
    decreases edits.len(),
{
    if edits.len() == 0 {
        true
    } else {
        let e = edits[0];
        let r = rewrite_spec(start, end, e.start, e.end, e.ins_len, len);
        &&& !overlaps(start, end, e.start, e.end)
        &&& edits_avoid(r.0, r.1, edits.drop_first(), len - (e.end - e.start) + e.ins_len)
    }
}

/// Across any sequence of edits none of which overlaps the anchor, each edit
/// shifts the anchor by exactly its length delta (or not at all), so the
/// anchor keeps its length, is never flagged, and never lands outside
/// `[0, new_len]`.
pub proof fn lemma_nonoverlapping_edits_keep_anchor(
    start: int,
    end: int,
    edits: Seq<EditSpan>,
    len: int,
)
    requires
        0 <= start <= end <= len,
        edits_valid(edits, len),
        edits_avoid(start, end, edits, len),
    ensures
        ({
            let r = rewrite_seq(start, end, edits, len);
            &&& r.1 - r.0 == end - start
            &&& 0 <= r.0 <= r.1 <= r.2
        }),
    decreases edits.len(),
{
    if edits.len() == 0 {
    } else {
        let e = edits[0];
        let r = rewrite_spec(start, end, e.start, e.end, e.ins_len, len);
        lemma_untouched_anchor_shifts(start, end, e.start, e.end, e.ins_len, len);
        lemma_nonoverlapping_edits_keep_anchor(
            r.0,
            r.1,
            edits.drop_first(),
            len - (e.end - e.start) + e.ins_len,
        );
    }
}

} // verus!
