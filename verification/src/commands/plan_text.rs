//! `luna plan`: the text of a plan, and the process exit status of a command.
use vstd::prelude::*;
use crate::planner::Step;
use crate::text::{views, join, join_strings, string_from, push_str};

verus! {

/// The line of a plan step: `  <adapter> <program> <args>` and, when it has
/// dependencies, ` (after <deps joined by ", ">)`.
pub open spec fn plan_line_spec(adapter: Seq<char>, program: Seq<char>, args: Seq<Seq<char>>, deps: Seq<Seq<char>>) -> Seq<char> {
    "  "@ + adapter + " "@ + program + " "@ + join(args, " "@) + if deps.len() == 0 {
        ""@
    } else {
        " (after "@ + join(deps, ", "@) + ")"@
    }
}

/// The line of a plan step.
pub fn plan_line(step: &Step) -> (r: String)
    ensures
        r@ == plan_line_spec(step.adapter@, step.program@, views(step.args@), views(step.depends_on@)),
{
    let mut r = string_from("  ");
    push_str(&mut r, step.adapter.as_str());
    push_str(&mut r, " ");
    push_str(&mut r, step.program.as_str());
    push_str(&mut r, " ");
    let a = join_strings(&step.args, " ");
    push_str(&mut r, a.as_str());
    if step.depends_on.len() == 0 {
        proof {
            reveal_strlit("");
            assert(r@ + ""@ =~= r@);
        }
    } else {
        push_str(&mut r, " (after ");
        let d = join_strings(&step.depends_on, ", ");
        push_str(&mut r, d.as_str());
        push_str(&mut r, ")");
    }
    r
}

/// The process exit status of a command's exit code: clamped to `0..=255`.
pub fn exit_status(code: i32) -> (r: u8)
    ensures
        r as int == if code < 0 {
            0
        } else if code > 255 {
            255
        } else {
            code as int
        },
{
    if code < 0 {
        0
    } else if code > 255 {
        255
    } else {
        code as u8
    }
}

/// Whether `luna agent mcp` may start: the MCP server must be enabled in the
/// configuration.
pub fn mcp_allowed(enabled: bool) -> (r: Result<(), String>)
    ensures
        match r {
            Ok(_) => enabled,
            Err(e) => !enabled && e@ == "MCP disabled — set [agent].mcp = true in luna.toml"@,
        },
{
    if enabled {
        Ok(())
    } else {
        Err(string_from("MCP disabled — set [agent].mcp = true in luna.toml"))
    }
}

} // verus!
