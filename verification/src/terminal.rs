//! Formatters for terminal-initiated run bootstrapping and playbook
//! listings.

use vstd::prelude::*;

use crate::messages::ActiveRun;
use crate::messages::HotwireResponse;
use crate::messages::ListActiveRunsResponse;
use crate::messages::ListPlaybooksResponse;
use crate::messages::PairResponse;
use crate::messages::PendingPairRun;
use crate::messages::PlaybookInfo;
use crate::messages::PlaybookRoleInfo;
use crate::strfmt::bool_string;
use crate::strfmt::bool_text;
use crate::strfmt::dec_of;
use crate::strfmt::join_strings;
use crate::strfmt::joined;
use crate::strfmt::string_views;
use crate::strfmt::u64_string;

verus! {

/// The text `format_hotwire_response` renders for each outcome.
pub open spec fn hotwire_response_text(r: HotwireResponse) -> Seq<char> {
    match r {
        HotwireResponse::Started(s) =>
            "═══════════════════════════════════════════════════════════════\nWORKFLOW STARTED\n═══════════════════════════════════════════════════════════════\n\nRun ID: "@
            + s.run_id@ + "\nPlaybook: "@ + s.playbook@ + "\nYour Role: "@ + s.role@
            + "\n\nYou are now the PRIMARY AGENT. Your protocol is below.\n\n═══════════════════════════════════════════════════════════════\n\n"@
            + s.protocol@ + "\n"@,
        HotwireResponse::NeedsConfirmation(c) => {
            let hint = match c.suggested_playbook {
                Some(p) => "\nSuggested playbook: "@ + p@,
                None => Seq::empty(),
            };
            "═══════════════════════════════════════════════════════════════\nCONFIRMATION NEEDED\n═══════════════════════════════════════════════════════════════\n\n"@
                + c.message@ + "\n"@ + hint + "\nPending Run ID: "@ + c.pending_run_id@
                + "\n\nPlease confirm the workflow in the Hotwired app.\nWhen you confirm, you will receive a trigger message.\nThen call get_protocol(run_id, role) to get your instructions.\n\n═══════════════════════════════════════════════════════════════\n"@
        },
        HotwireResponse::Error { error } =>
            "═══════════════════════════════════════════════════════════════\nERROR\n═══════════════════════════════════════════════════════════════\n\nFailed to start workflow: "@
            + error@
            + "\n\n═══════════════════════════════════════════════════════════════\n"@,
    }
}

/// Format the outcome of initiating a run from the terminal.
pub fn format_hotwire_response(response: &HotwireResponse) -> (out: String)
    ensures
        out@ == hotwire_response_text(*response),
{
    match response {
        HotwireResponse::Started(s) => {
            let mut out = String::from_str(
                "═══════════════════════════════════════════════════════════════\nWORKFLOW STARTED\n═══════════════════════════════════════════════════════════════\n\nRun ID: ",
            );
            out.append(s.run_id.as_str());
            out.append("\nPlaybook: ");
            out.append(s.playbook.as_str());
            out.append("\nYour Role: ");
            out.append(s.role.as_str());
            out.append(
                "\n\nYou are now the PRIMARY AGENT. Your protocol is below.\n\n═══════════════════════════════════════════════════════════════\n\n",
            );
            out.append(s.protocol.as_str());
            out.append("\n");
            out
        },
        HotwireResponse::NeedsConfirmation(c) => {
            let mut out = String::from_str(
                "═══════════════════════════════════════════════════════════════\nCONFIRMATION NEEDED\n═══════════════════════════════════════════════════════════════\n\n",
            );
            out.append(c.message.as_str());
            out.append("\n");
            match &c.suggested_playbook {
                Some(p) => {
                    out.append("\nSuggested playbook: ");
                    out.append(p.as_str());
                },
                None => {},
            }
            out.append("\nPending Run ID: ");
            out.append(c.pending_run_id.as_str());
            out.append(
                "\n\nPlease confirm the workflow in the Hotwired app.\nWhen you confirm, you will receive a trigger message.\nThen call get_protocol(run_id, role) to get your instructions.\n\n═══════════════════════════════════════════════════════════════\n",
            );
            out
        },
        HotwireResponse::Error { error } => {
            let mut out = String::from_str(
                "═══════════════════════════════════════════════════════════════\nERROR\n═══════════════════════════════════════════════════════════════\n\nFailed to start workflow: ",
            );
            out.append(error.as_str());
            out.append("\n\n═══════════════════════════════════════════════════════════════\n");
            out
        },
    }
}

/// One selectable run's line, numbered from one.
pub open spec fn pair_run_line(r: PendingPairRun, number: int) -> Seq<char> {
    dec_of(number as nat) + ". ["@ + r.run_id@ + "] "@ + r.playbook@ + " - needs "@
        + r.role_needed@ + " ("@ + r.intent@ + ")"@
}

/// The numbered lines of all selectable runs.
pub open spec fn pair_run_lines(items: Seq<PendingPairRun>) -> Seq<Seq<char>> {
    Seq::new(items.len(), |i: int| pair_run_line(items[i], i + 1))
}

/// The text `format_pair_response` renders for each outcome.
pub open spec fn pair_response_text(r: PairResponse) -> Seq<char> {
    match r {
        PairResponse::Joined(j) => {
            let artifact = match j.context.current_artifact {
                Some(a) => a@,
                None => "(none)"@,
            };
            "═══════════════════════════════════════════════════════════════\nJOINED WORKFLOW\n═══════════════════════════════════════════════════════════════\n\nRun ID: "@
                + j.run_id@ + "\nPlaybook: "@ + j.playbook@ + "\nYour Role: "@ + j.role_name@
                + " ("@ + j.role@
                + ")\n\nYou are now the SECONDARY AGENT.\n\nContext from primary agent:\n- Primary status: "@
                + j.context.primary_status@ + "\n- Current artifact: "@ + artifact
                + "\n- Summary: "@ + j.context.conversation_summary@
                + "\n\nYour protocol is below.\n\n═══════════════════════════════════════════════════════════════\n\n"@
                + j.protocol@ + "\n"@
        },
        PairResponse::NeedsSelection(sel) =>
            "═══════════════════════════════════════════════════════════════\nSELECTION NEEDED\n═══════════════════════════════════════════════════════════════\n\n"@
            + sel.message@ + "\n\nAvailable runs needing a second agent:\n"@ + joined(
            pair_run_lines(sel.pending_runs@),
            "\n"@,
        )
            + "\n\nPlease select which run to join in the Hotwired app.\nWhen you select, you will receive a trigger message.\nThen call get_protocol(run_id, role) to get your instructions.\n\n═══════════════════════════════════════════════════════════════\n"@,
        PairResponse::NoneAvailable { message } =>
            "═══════════════════════════════════════════════════════════════\nNO RUNS AVAILABLE\n═══════════════════════════════════════════════════════════════\n\n"@
            + message@
            + "\n\nCheck that the primary agent has raised a needs_second_agent impediment.\n\n═══════════════════════════════════════════════════════════════\n"@,
        PairResponse::ProjectMismatch(m) =>
            "═══════════════════════════════════════════════════════════════\nPROJECT MISMATCH\n═══════════════════════════════════════════════════════════════\n\n"@
            + m.message@ + "\n\nRequired path: "@ + m.required_path@ + "\nYour current path: "@
            + m.current_path@
            + "\n\nPlease cd to the required path and try again.\n\n═══════════════════════════════════════════════════════════════\n"@,
        PairResponse::Error { error } =>
            "═══════════════════════════════════════════════════════════════\nERROR\n═══════════════════════════════════════════════════════════════\n\nFailed to join workflow: "@
            + error@
            + "\n\n═══════════════════════════════════════════════════════════════\n"@,
    }
}

/// Format the outcome of joining a run as the second agent.
pub fn format_pair_response(response: &PairResponse) -> (out: String)
    ensures
        out@ == pair_response_text(*response),
{
    match response {
        PairResponse::Joined(j) => {
            let mut out = String::from_str(
                "═══════════════════════════════════════════════════════════════\nJOINED WORKFLOW\n═══════════════════════════════════════════════════════════════\n\nRun ID: ",
            );
            out.append(j.run_id.as_str());
            out.append("\nPlaybook: ");
            out.append(j.playbook.as_str());
            out.append("\nYour Role: ");
            out.append(j.role_name.as_str());
            out.append(" (");
            out.append(j.role.as_str());
            out.append(
                ")\n\nYou are now the SECONDARY AGENT.\n\nContext from primary agent:\n- Primary status: ",
            );
            out.append(j.context.primary_status.as_str());
            out.append("\n- Current artifact: ");
            match &j.context.current_artifact {
                Some(a) => out.append(a.as_str()),
                None => out.append("(none)"),
            }
            out.append("\n- Summary: ");
            out.append(j.context.conversation_summary.as_str());
            out.append(
                "\n\nYour protocol is below.\n\n═══════════════════════════════════════════════════════════════\n\n",
            );
            out.append(j.protocol.as_str());
            out.append("\n");
            out
        },
        PairResponse::NeedsSelection(sel) => {
            let mut out = String::from_str(
                "═══════════════════════════════════════════════════════════════\nSELECTION NEEDED\n═══════════════════════════════════════════════════════════════\n\n",
            );
            out.append(sel.message.as_str());
            out.append("\n\nAvailable runs needing a second agent:\n");
            let ghost head = out@;
            let ghost lines = pair_run_lines(sel.pending_runs@);
            let mut i: usize = 0;
            while i < sel.pending_runs.len()
                invariant
                    i <= sel.pending_runs@.len(),
                    lines == pair_run_lines(sel.pending_runs@),
                    out@ == head + joined(lines.take(i as int), "\n"@),
                decreases sel.pending_runs@.len() - i,
            {
                if i > 0 {
                    out.append("\n");
                }
                let n = u64_string((i as u64) + 1);
                out.append(n.as_str());
                out.append(". [");
                out.append(sel.pending_runs[i].run_id.as_str());
                out.append("] ");
                out.append(sel.pending_runs[i].playbook.as_str());
                out.append(" - needs ");
                out.append(sel.pending_runs[i].role_needed.as_str());
                out.append(" (");
                out.append(sel.pending_runs[i].intent.as_str());
                out.append(")");
                proof {
                    assert(lines.take(i + 1).drop_last() =~= lines.take(i as int));
                    assert(lines.take(i + 1).last() == lines[i as int]);
                    assert(lines[i as int] == pair_run_line(sel.pending_runs@[i as int], i + 1));
                    if i > 0 {
                        assert(out@ =~= head + (joined(lines.take(i as int), "\n"@) + "\n"@
                            + lines[i as int]));
                    } else {
                        assert(lines.take(1) =~= seq![lines[0]]);
                        assert(out@ =~= head + lines[0]);
                    }
                }
                i = i + 1;
            }
            proof {
                assert(lines.take(lines.len() as int) =~= lines);
            }
            out.append(
                "\n\nPlease select which run to join in the Hotwired app.\nWhen you select, you will receive a trigger message.\nThen call get_protocol(run_id, role) to get your instructions.\n\n═══════════════════════════════════════════════════════════════\n",
            );
            out
        },
        PairResponse::NoneAvailable { message } => {
            let mut out = String::from_str(
                "═══════════════════════════════════════════════════════════════\nNO RUNS AVAILABLE\n═══════════════════════════════════════════════════════════════\n\n",
            );
            out.append(message.as_str());
            out.append(
                "\n\nCheck that the primary agent has raised a needs_second_agent impediment.\n\n═══════════════════════════════════════════════════════════════\n",
            );
            out
        },
        PairResponse::ProjectMismatch(m) => {
            let mut out = String::from_str(
                "═══════════════════════════════════════════════════════════════\nPROJECT MISMATCH\n═══════════════════════════════════════════════════════════════\n\n",
            );
            out.append(m.message.as_str());
            out.append("\n\nRequired path: ");
            out.append(m.required_path.as_str());
            out.append("\nYour current path: ");
            out.append(m.current_path.as_str());
            out.append(
                "\n\nPlease cd to the required path and try again.\n\n═══════════════════════════════════════════════════════════════\n",
            );
            out
        },
        PairResponse::Error { error } => {
            let mut out = String::from_str(
                "═══════════════════════════════════════════════════════════════\nERROR\n═══════════════════════════════════════════════════════════════\n\nFailed to join workflow: ",
            );
            out.append(error.as_str());
            out.append("\n\n═══════════════════════════════════════════════════════════════\n");
            out
        },
    }
}

/// One active run's entry.
pub open spec fn active_run_entry(r: ActiveRun) -> Seq<char> {
    let role_info = match r.my_role {
        Some(role) => " (your role: "@ + role@ + ")"@,
        None => Seq::empty(),
    };
    "- ["@ + r.run_id@ + "] "@ + r.playbook@ + " - "@ + r.intent@ + " ("@ + r.status@ + ")"@
        + role_info + "\n  Created: "@ + r.created_at@
}

/// The entries of all active runs.
pub open spec fn active_run_entries(items: Seq<ActiveRun>) -> Seq<Seq<char>> {
    items.map_values(|r: ActiveRun| active_run_entry(r))
}

/// The text `format_active_runs` renders.
pub open spec fn active_runs_text(r: ListActiveRunsResponse) -> Seq<char> {
    if r.runs@.len() == 0 {
        "═══════════════════════════════════════════════════════════════\nACTIVE RUNS\n═══════════════════════════════════════════════════════════════\n\nNo active runs found.\n\n═══════════════════════════════════════════════════════════════\n"@
    } else {
        "═══════════════════════════════════════════════════════════════\nACTIVE RUNS\n═══════════════════════════════════════════════════════════════\n\n"@
            + joined(active_run_entries(r.runs@), "\n\n"@)
            + "\n\n═══════════════════════════════════════════════════════════════\n"@
    }
}

/// Render one active run's entry.
fn render_active_run(r: &ActiveRun) -> (out: String)
    ensures
        out@ == active_run_entry(*r),
{
    let mut out = String::from_str("- [");
    out.append(r.run_id.as_str());
    out.append("] ");
    out.append(r.playbook.as_str());
    out.append(" - ");
    out.append(r.intent.as_str());
    out.append(" (");
    out.append(r.status.as_str());
    out.append(")");
    match &r.my_role {
        Some(role) => {
            out.append(" (your role: ");
            out.append(role.as_str());
            out.append(")");
        },
        None => {},
    }
    out.append("\n  Created: ");
    out.append(r.created_at.as_str());
    out
}

/// Format the active runs: each with its playbook, intent, status and, when
/// this session held one, its role.
pub fn format_active_runs(response: &ListActiveRunsResponse) -> (out: String)
    ensures
        out@ == active_runs_text(*response),
{
    if response.runs.len() == 0 {
        return String::from_str(
            "═══════════════════════════════════════════════════════════════\nACTIVE RUNS\n═══════════════════════════════════════════════════════════════\n\nNo active runs found.\n\n═══════════════════════════════════════════════════════════════\n",
        );
    }
    let mut out = String::from_str(
        "═══════════════════════════════════════════════════════════════\nACTIVE RUNS\n═══════════════════════════════════════════════════════════════\n\n",
    );
    let ghost head = out@;
    let ghost entries = active_run_entries(response.runs@);
    let mut i: usize = 0;
    while i < response.runs.len()
        invariant
            i <= response.runs@.len(),
            entries == active_run_entries(response.runs@),
            out@ == head + joined(entries.take(i as int), "\n\n"@),
        decreases response.runs@.len() - i,
    {
        if i > 0 {
            out.append("\n\n");
        }
        let entry = render_active_run(&response.runs[i]);
        out.append(entry.as_str());
        proof {
            assert(entries.take(i + 1).drop_last() =~= entries.take(i as int));
            assert(entries.take(i + 1).last() == entries[i as int]);
            assert(entries[i as int] == active_run_entry(response.runs@[i as int]));
            if i > 0 {
                assert(out@ =~= head + (joined(entries.take(i as int), "\n\n"@) + "\n\n"@
                    + entries[i as int]));
            } else {
                assert(entries.take(1) =~= seq![entries[0]]);
                assert(out@ =~= head + entries[0]);
            }
        }
        i = i + 1;
    }
    proof {
        assert(entries.take(entries.len() as int) =~= entries);
    }
    out.append("\n\n═══════════════════════════════════════════════════════════════\n");
    out
}

/// One playbook role's line.
pub open spec fn role_line(r: PlaybookRoleInfo) -> Seq<char> {
    let initiating = if r.is_initiating {
        " [INITIATING]"@
    } else {
        Seq::<char>::empty()
    };
    "  - "@ + r.name@ + ": "@ + r.description@ + initiating
}

/// The lines of a playbook's roles.
pub open spec fn role_lines(items: Seq<PlaybookRoleInfo>) -> Seq<Seq<char>> {
    items.map_values(|r: PlaybookRoleInfo| role_line(r))
}

/// The text `format_single_playbook` renders.
pub open spec fn single_playbook_text(pb: PlaybookInfo) -> Seq<char> {
    let best_for = if pb.best_for@.len() == 0 {
        "(not specified)"@
    } else {
        joined(string_views(pb.best_for@), ", "@)
    };
    let keywords = if pb.keywords@.len() == 0 {
        "(none)"@
    } else {
        joined(string_views(pb.keywords@), ", "@)
    };
    "## "@ + pb.name@ + " ("@ + pb.id@ + ")\n\n"@ + pb.tagline@ + "\n\n"@ + pb.description@
        + "\n\n**Roles:**\n"@ + joined(role_lines(pb.roles@), "\n"@) + "\n\n**Best for:** "@
        + best_for + "\n**Keywords:** "@ + keywords + "\n**Artifact mode:** "@ + bool_text(
        pb.artifact_mode,
    )
}

/// Format one playbook: its names, roles, and intent-matching metadata.
pub fn format_single_playbook(pb: &PlaybookInfo) -> (out: String)
    ensures
        out@ == single_playbook_text(*pb),
{
    let mut out = String::from_str("## ");
    out.append(pb.name.as_str());
    out.append(" (");
    out.append(pb.id.as_str());
    out.append(")\n\n");
    out.append(pb.tagline.as_str());
    out.append("\n\n");
    out.append(pb.description.as_str());
    out.append("\n\n**Roles:**\n");
    let ghost head = out@;
    let ghost lines = role_lines(pb.roles@);
    let mut i: usize = 0;
    while i < pb.roles.len()
        invariant
            i <= pb.roles@.len(),
            lines == role_lines(pb.roles@),
            out@ == head + joined(lines.take(i as int), "\n"@),
        decreases pb.roles@.len() - i,
    {
        if i > 0 {
            out.append("\n");
        }
        let r = &pb.roles[i];
        out.append("  - ");
        out.append(r.name.as_str());
        out.append(": ");
        out.append(r.description.as_str());
        if r.is_initiating {
            out.append(" [INITIATING]");
        }
        proof {
            assert(lines.take(i + 1).drop_last() =~= lines.take(i as int));
            assert(lines.take(i + 1).last() == lines[i as int]);
            assert(lines[i as int] == role_line(pb.roles@[i as int]));
            if i > 0 {
                assert(out@ =~= head + (joined(lines.take(i as int), "\n"@) + "\n"@
                    + lines[i as int]));
            } else {
                assert(lines.take(1) =~= seq![lines[0]]);
                assert(out@ =~= head + lines[0]);
            }
        }
        i = i + 1;
    }
    proof {
        assert(lines.take(lines.len() as int) =~= lines);
    }
    out.append("\n\n**Best for:** ");
    if pb.best_for.len() == 0 {
        out.append("(not specified)");
    } else {
        let joined_best = join_strings(&pb.best_for, ", ");
        out.append(joined_best.as_str());
    }
    out.append("\n**Keywords:** ");
    if pb.keywords.len() == 0 {
        out.append("(none)");
    } else {
        let joined_kw = join_strings(&pb.keywords, ", ");
        out.append(joined_kw.as_str());
    }
    out.append("\n**Artifact mode:** ");
    let mode = bool_string(pb.artifact_mode);
    out.append(mode.as_str());
    out
}

/// The playbook blocks.
pub open spec fn playbook_blocks(items: Seq<PlaybookInfo>) -> Seq<Seq<char>> {
    items.map_values(|pb: PlaybookInfo| single_playbook_text(pb))
}

/// The text `format_playbooks` renders.
pub open spec fn playbooks_text(r: ListPlaybooksResponse) -> Seq<char> {
    if r.playbooks@.len() == 0 {
        "═══════════════════════════════════════════════════════════════\nAVAILABLE PLAYBOOKS\n═══════════════════════════════════════════════════════════════\n\nNo playbooks available.\n\n═══════════════════════════════════════════════════════════════\n"@
    } else {
        "═══════════════════════════════════════════════════════════════\nAVAILABLE PLAYBOOKS\n═══════════════════════════════════════════════════════════════\n\n"@
            + joined(playbook_blocks(r.playbooks@), "\n---\n\n"@)
            + "\n\n═══════════════════════════════════════════════════════════════\n"@
    }
}

/// Format the available playbooks, separated by rules, for intent matching.
pub fn format_playbooks(response: &ListPlaybooksResponse) -> (out: String)
    ensures
        out@ == playbooks_text(*response),
{
    if response.playbooks.len() == 0 {
        return String::from_str(
            "═══════════════════════════════════════════════════════════════\nAVAILABLE PLAYBOOKS\n═══════════════════════════════════════════════════════════════\n\nNo playbooks available.\n\n═══════════════════════════════════════════════════════════════\n",
        );
    }
    let mut out = String::from_str(
        "═══════════════════════════════════════════════════════════════\nAVAILABLE PLAYBOOKS\n═══════════════════════════════════════════════════════════════\n\n",
    );
    let ghost head = out@;
    let ghost blocks = playbook_blocks(response.playbooks@);
    let mut i: usize = 0;
    while i < response.playbooks.len()
        invariant
            i <= response.playbooks@.len(),
            blocks == playbook_blocks(response.playbooks@),
            out@ == head + joined(blocks.take(i as int), "\n---\n\n"@),
        decreases response.playbooks@.len() - i,
    {
        if i > 0 {
            out.append("\n---\n\n");
        }
        let block = format_single_playbook(&response.playbooks[i]);
        out.append(block.as_str());
        proof {
            assert(blocks.take(i + 1).drop_last() =~= blocks.take(i as int));
            assert(blocks.take(i + 1).last() == blocks[i as int]);
            assert(blocks[i as int] == single_playbook_text(response.playbooks@[i as int]));
            if i > 0 {
                assert(out@ =~= head + (joined(blocks.take(i as int), "\n---\n\n"@) + "\n---\n\n"@
                    + blocks[i as int]));
            } else {
                assert(blocks.take(1) =~= seq![blocks[0]]);
                assert(out@ =~= head + blocks[0]);
            }
        }
        i = i + 1;
    }
    proof {
        assert(blocks.take(blocks.len() as int) =~= blocks);
    }
    out.append("\n\n═══════════════════════════════════════════════════════════════\n");
    out
}

} // verus!
