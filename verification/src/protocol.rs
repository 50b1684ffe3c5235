//! Formatters for protocol and run-status responses.

use vstd::prelude::*;

use crate::messages::ConnectedAgent;
use crate::messages::GetProtocolResponse;
use crate::messages::GetRunStatusResponse;
use crate::strfmt::bool_string;
use crate::strfmt::bool_text;
use crate::strfmt::joined;

verus! {

/// The role-instruction section, present only when role instructions exist
/// and are not empty.
pub open spec fn role_section_text(role_protocol: Option<String>) -> Seq<char> {
    match role_protocol {
        Some(rp) => if rp@.len() > 0 {
            "\n## Your Role Instructions\n\n"@ + rp@ + "\n"@
        } else {
            Seq::empty()
        },
        None => Seq::empty(),
    }
}

/// The capabilities section, present only when a capability is granted.
pub open spec fn capabilities_section_text(r: GetProtocolResponse) -> Seq<char> {
    match r.capabilities {
        Some(caps) => if caps.can_resolve_impediments {
            "\n## Your Capabilities\n\n"@
                + "- **Can resolve impediments**: You can use `resolve_impediment` to resolve blockers raised by other agents"@
                + "\n"@
        } else {
            Seq::empty()
        },
        None => Seq::empty(),
    }
}

/// The text `format_protocol_response` renders.
pub open spec fn protocol_response_text(r: GetProtocolResponse) -> Seq<char> {
    let instructions = match r.playbook_protocol {
        Some(p) => p@,
        None => "(No protocol instructions available)"@,
    };
    let init = match r.initialization_condition {
        Some(c) => c@,
        None => "(No initialization condition set)"@,
    };
    "# Hotwired Workflow Protocol\n\n**Run ID:** "@ + r.run_id@ + "\n**Playbook:** "@
        + r.template_name@ + "\n\n## Protocol Instructions\n\n"@ + instructions + "\n"@
        + role_section_text(r.role_protocol) + capabilities_section_text(r)
        + "\n## Initialization Condition\n\n"@ + init + "\n"@
}

/// Format a protocol response: the run header, protocol instructions, any
/// role instructions and capabilities, and the initialization condition.
pub fn format_protocol_response(response: &GetProtocolResponse) -> (out: String)
    ensures
        out@ == protocol_response_text(*response),
{
    let mut out = String::from_str("# Hotwired Workflow Protocol\n\n**Run ID:** ");
    out.append(response.run_id.as_str());
    out.append("\n**Playbook:** ");
    out.append(response.template_name.as_str());
    out.append("\n\n## Protocol Instructions\n\n");
    match &response.playbook_protocol {
        Some(p) => out.append(p.as_str()),
        None => out.append("(No protocol instructions available)"),
    }
    out.append("\n");
    match &response.role_protocol {
        Some(rp) => {
            if rp.as_str().unicode_len() > 0 {
                out.append("\n## Your Role Instructions\n\n");
                out.append(rp.as_str());
                out.append("\n");
            }
        },
        None => {},
    }
    match &response.capabilities {
        Some(caps) => {
            if caps.can_resolve_impediments {
                out.append("\n## Your Capabilities\n\n");
                out.append(
                    "- **Can resolve impediments**: You can use `resolve_impediment` to resolve blockers raised by other agents",
                );
                out.append("\n");
            }
        },
        None => {},
    }
    out.append("\n## Initialization Condition\n\n");
    match &response.initialization_condition {
        Some(c) => out.append(c.as_str()),
        None => out.append("(No initialization condition set)"),
    }
    out.append("\n");
    out
}

/// One connected agent's line in the status display.
pub open spec fn agent_line(a: ConnectedAgent) -> Seq<char> {
    "  - "@ + a.role_id@ + ": "@ + a.session_name@ + " ("@ + a.agent_type@ + ")"@
}

/// The lines of all connected agents.
pub open spec fn agent_lines(items: Seq<ConnectedAgent>) -> Seq<Seq<char>> {
    items.map_values(|a: ConnectedAgent| agent_line(a))
}

/// The agents section: a placeholder when no agent is connected, otherwise
/// one line per agent.
pub open spec fn agents_section_text(items: Seq<ConnectedAgent>) -> Seq<char> {
    if items.len() == 0 {
        "  (no agents connected)"@
    } else {
        joined(agent_lines(items), "\n"@)
    }
}

/// The text `format_run_status_response` renders.
pub open spec fn run_status_response_text(r: GetRunStatusResponse) -> Seq<char> {
    "═══════════════════════════════════════════════════════════════\nRUN STATUS\n═══════════════════════════════════════════════════════════════\n\nRun ID: "@
        + r.run_id@ + "\nStatus: "@ + r.status@ + "\nPhase: "@ + r.phase@ + "\nTemplate: "@
        + r.template_name@ + "\nHas Protocol: "@ + bool_text(r.has_protocol)
        + "\n\nConnected Agents:\n"@ + agents_section_text(r.connected_agents@)
        + "\n\n═══════════════════════════════════════════════════════════════\n"@
}

/// Format a run status response, in plain text so that status parsers can
/// find lines such as `Status: blocked` without markdown markers.
pub fn format_run_status_response(response: &GetRunStatusResponse) -> (out: String)
    ensures
        out@ == run_status_response_text(*response),
{
    let mut out = String::from_str(
        "═══════════════════════════════════════════════════════════════\nRUN STATUS\n═══════════════════════════════════════════════════════════════\n\nRun ID: ",
    );
    out.append(response.run_id.as_str());
    out.append("\nStatus: ");
    out.append(response.status.as_str());
    out.append("\nPhase: ");
    out.append(response.phase.as_str());
    out.append("\nTemplate: ");
    out.append(response.template_name.as_str());
    out.append("\nHas Protocol: ");
    let has = bool_string(response.has_protocol);
    out.append(has.as_str());
    out.append("\n\nConnected Agents:\n");
    if response.connected_agents.len() == 0 {
        out.append("  (no agents connected)");
    } else {
        let ghost head = out@;
        let ghost lines = agent_lines(response.connected_agents@);
        let mut i: usize = 0;
        while i < response.connected_agents.len()
            invariant
                i <= response.connected_agents@.len(),
                lines == agent_lines(response.connected_agents@),
                out@ == head + joined(lines.take(i as int), "\n"@),
            decreases response.connected_agents@.len() - i,
        {
            if i > 0 {
                out.append("\n");
            }
            let a = &response.connected_agents[i];
            out.append("  - ");
            out.append(a.role_id.as_str());
            out.append(": ");
            out.append(a.session_name.as_str());
            out.append(" (");
            out.append(a.agent_type.as_str());
            out.append(")");
            proof {
                assert(lines.take(i + 1).drop_last() =~= lines.take(i as int));
                assert(lines.take(i + 1).last() == lines[i as int]);
                assert(lines[i as int] == agent_line(response.connected_agents@[i as int]));
                if i > 0 {
                    assert(out@ =~= head + (joined(lines.take(i as int), "\n"@) + "\n"@
                        + lines[i as int]));
                } else {
                    assert(lines.take(1) =~= seq![lines[0]]);
                    assert(out@ =~= head + lines[0]);
                }
            }
            i = i + 1;
        }
        proof {
            assert(lines.take(lines.len() as int) =~= lines);
        }
    }
    out.append("\n\n═══════════════════════════════════════════════════════════════\n");
    out
}

} // verus!
