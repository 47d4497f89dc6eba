//! Build, test, dev and start: the Moon invocations behind Luna's core verbs.
use vstd::prelude::*;
use crate::config::LunaConfig;
use crate::planner::Step;
use crate::text::{replace_all, replace_str, views, join, join_strings, string_from, push_str, str_eq};

verus! {

/// The model of a list of borrowed strings.
pub open spec fn strs_view(v: Seq<&str>) -> Seq<Seq<char>> {
    v.map_values(|s: &str| s@)
}

/// `args` followed by `--affected` when `affected`.
pub open spec fn with_affected_spec(args: Seq<Seq<char>>, affected: bool) -> Seq<Seq<char>> {
    if affected {
        args.push("--affected"@)
    } else {
        args
    }
}

/// Append `--affected` to an argument list when requested.
pub fn with_affected<'a>(args: Vec<&'a str>, affected: bool) -> (r: Vec<&'a str>)
    ensures
        strs_view(r@) == with_affected_spec(strs_view(args@), affected),
{
    let mut args = args;
    let ghost before = strs_view(args@);
    if affected {
        args.push("--affected");
        assert(strs_view(args@) =~= before.push("--affected"@));
    }
    args
}

/// The Moon query selecting the projects of the scope configured for a command
/// (`dev` has its own; every other command uses the build scope).
pub open spec fn scope_query_spec(config: LunaConfig, command: Seq<char>) -> Seq<char> {
    let scope = if command == "dev"@ {
        config.commands.dev.default_scope@
    } else {
        config.commands.build.default_scope@
    };
    "projectLayer="@ + replace_all(scope, "applications"@, "application"@)
}

/// The Moon query for a command's configured scope.
pub fn scope_query(config: &LunaConfig, command: &str) -> (r: String)
    ensures
        r@ == scope_query_spec(*config, command@),
{
    let scope = if str_eq(command, "dev") {
        config.commands.dev.default_scope.as_str()
    } else {
        config.commands.build.default_scope.as_str()
    };
    proof {
        reveal_strlit("applications");
    }
    let mut r = string_from("projectLayer=");
    let s = replace_str(scope, "applications", "application");
    push_str(&mut r, s.as_str());
    r
}

/// The Moon arguments of a one-shot task (`build`, `test`): the project's own
/// target, or the task across the configured scope; `--affected` last when asked.
pub open spec fn task_argv_spec(config: LunaConfig, task: Seq<char>, project: Option<Seq<char>>, affected: bool) -> Seq<
    Seq<char>,
> {
    match project {
        Some(p) => with_affected_spec(seq!["run"@, p + ":"@ + task], affected),
        None => with_affected_spec(
            seq!["run"@, ":"@ + task, "--query"@, scope_query_spec(config, task)],
            affected,
        ),
    }
}

/// The Moon arguments of a one-shot task.
pub fn task_argv(config: &LunaConfig, task: &str, project: Option<&str>, affected: bool) -> (r: Vec<String>)
    ensures
        views(r@) == task_argv_spec(
            *config,
            task@,
            match project {
                Some(p) => Some(p@),
                None => None,
            },
            affected,
        ),
{
    let mut argv: Vec<String> = Vec::new();
    argv.push(string_from("run"));
    match project {
        Some(p) => {
            let mut target = string_from(p);
            push_str(&mut target, ":");
            push_str(&mut target, task);
            argv.push(target);
        },
        None => {
            argv.push(crate::config::prefixed(":", task));
            argv.push(string_from("--query"));
            argv.push(scope_query(config, task));
        },
    }
    let ghost before = views(argv@);
    if affected {
        argv.push(string_from("--affected"));
        assert(views(argv@) =~= before.push("--affected"@));
    }
    assert(views(argv@) =~= task_argv_spec(
        *config,
        task@,
        match project {
            Some(p) => Some(p@),
            None => None,
        },
        affected,
    ));
    argv
}

/// The Moon arguments of a persistent task (`dev`, `start`), never filtered by
/// affected files.
pub open spec fn persistent_argv_spec(config: LunaConfig, task: Seq<char>, project: Option<Seq<char>>) -> Seq<Seq<char>> {
    task_argv_spec(config, task, project, false)
}

/// The Moon arguments of a persistent task.
pub fn persistent_argv(config: &LunaConfig, task: &str, project: Option<&str>) -> (r: Vec<String>)
    ensures
        views(r@) == persistent_argv_spec(
            *config,
            task@,
            match project {
                Some(p) => Some(p@),
                None => None,
            },
        ),
{
    task_argv(config, task, project, false)
}

/// Whether `luna dev` runs under `watchexec`: configured as the watcher, for the
/// whole workspace, with `watchexec` installed.
pub fn uses_watcher(config: &LunaConfig, project: Option<&str>, watchexec_installed: bool) -> (r: bool)
    ensures
        r == (config.commands.dev.watcher matches Some(w) && w@ == "watchexec"@ && project is None
            && watchexec_installed),
{
    let configured = match &config.commands.dev.watcher {
        Some(w) => str_eq(w.as_str(), "watchexec"),
        None => false,
    };
    configured && project.is_none() && watchexec_installed
}

/// The `watchexec` arguments of `luna dev`.
pub open spec fn watch_args_spec(config: LunaConfig) -> Seq<Seq<char>> {
    seq!["--watch"@, "."@, "--"@, "moon"@, "run"@, ":dev"@, "--query"@, scope_query_spec(config, "dev"@)]
}

/// The `watchexec` arguments of `luna dev`: rerun `moon run :dev` on changes.
pub fn watch_args(config: &LunaConfig) -> (r: Vec<String>)
    ensures
        views(r@) == watch_args_spec(*config),
{
    let mut args = crate::formats::strings(&["--watch", ".", "--", "moon", "run", ":dev", "--query"]);
    let ghost before = views(args@);
    args.push(scope_query(config, "dev"));
    assert(views(args@) =~= before.push(scope_query_spec(*config, "dev"@)));
    assert(views(args@) =~= watch_args_spec(*config));
    args
}

/// A list of arguments after a leading verb.
pub open spec fn verb_argv_spec(verb: Seq<char>, rest: Seq<Seq<char>>) -> Seq<Seq<char>> {
    seq![verb] + rest
}

/// The arguments `verb rest...`.
pub fn verb_argv(verb: &str, rest: &[String]) -> (r: Vec<String>)
    ensures
        views(r@) == verb_argv_spec(verb@, views(rest@)),
{
    let mut argv: Vec<String> = Vec::new();
    argv.push(string_from(verb));
    let ghost head = views(argv@);
    let mut tail = crate::security::clone_strings(rest);
    argv.append(&mut tail);
    assert(views(argv@) =~= head + views(rest@));
    assert(views(argv@) =~= verb_argv_spec(verb@, views(rest@)));
    argv
}

/// The dry-run line of a plan step: `  <adapter> <program> <args joined by spaces>`.
pub fn dry_run_line(step: &Step) -> (r: String)
    ensures
        r@ == "  "@ + step.adapter@ + " "@ + step.program@ + " "@ + join(views(step.args@), " "@),
{
    let mut r = string_from("  ");
    push_str(&mut r, step.adapter.as_str());
    push_str(&mut r, " ");
    push_str(&mut r, step.program.as_str());
    push_str(&mut r, " ");
    let a = join_strings(&step.args, " ");
    push_str(&mut r, a.as_str());
    r
}

} // verus!
