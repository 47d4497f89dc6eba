//! External commands: what a finished command left behind, the `PATH` they
//! run with, and the message when a program is missing.
use vstd::prelude::*;
use crate::text::{views, join, join_strings, string_from, push_str};

verus! {

/// The exit code and captured output of a command.
pub struct Output {
    pub code: i32,
    pub stdout: String,
    pub stderr: String,
}

/// The `PATH` commands run with: the workspace's `node_modules/.bin` and
/// `~/.cargo/bin` (those that exist) before the inherited `PATH`.
pub open spec fn enriched_path_spec(node_bin: Option<Seq<char>>, cargo_bin: Option<Seq<char>>, existing: Seq<char>) -> Seq<char> {
    let prefixes = (match node_bin {
        Some(p) => seq![p],
        None => seq![],
    }) + match cargo_bin {
        Some(p) => seq![p],
        None => seq![],
    };
    if prefixes.len() == 0 {
        existing
    } else {
        join(prefixes, ":"@) + ":"@ + existing
    }
}

/// Build the `PATH` commands run with, given the existing tool directories.
pub fn enriched_path(node_bin: Option<String>, cargo_bin: Option<String>, existing: &str) -> (r: String)
    ensures
        r@ == enriched_path_spec(
            crate::deps::model::opt_view(node_bin),
            crate::deps::model::opt_view(cargo_bin),
            existing@,
        ),
{
    let ghost nb = crate::deps::model::opt_view(node_bin);
    let ghost cb = crate::deps::model::opt_view(cargo_bin);
    let mut prefixes: Vec<String> = Vec::new();
    match node_bin {
        Some(p) => prefixes.push(p),
        None => {},
    }
    let ghost first = views(prefixes@);
    match cargo_bin {
        Some(p) => {
            prefixes.push(p);
            assert(views(prefixes@) =~= first.push(p@));
        },
        None => {},
    }
    assert(views(prefixes@) =~= (match nb {
        Some(p) => seq![p],
        None => seq![],
    }) + match cb {
        Some(p) => seq![p],
        None => seq![],
    });
    if prefixes.len() == 0 {
        string_from(existing)
    } else {
        let mut r = join_strings(&prefixes, ":");
        push_str(&mut r, ":");
        push_str(&mut r, existing);
        r
    }
}

/// The error when a program cannot be found.
pub fn missing_command(program: &str) -> (r: String)
    ensures
        r@ == "missing required command: `"@ + program@ + "` (is it installed and on PATH?)"@,
{
    let mut r = string_from("missing required command: `");
    push_str(&mut r, program);
    push_str(&mut r, "` (is it installed and on PATH?)");
    r
}

/// The line echoed before running a command: `› <program> <args joined by spaces>`.
pub fn echo_line(program: &str, args: &Vec<String>) -> (r: String)
    ensures
        r@ == "› "@ + program@ + " "@ + join(views(args@), " "@),
{
    let mut r = string_from("› ");
    push_str(&mut r, program);
    push_str(&mut r, " ");
    let a = join_strings(args, " ");
    push_str(&mut r, a.as_str());
    r
}

} // verus!
