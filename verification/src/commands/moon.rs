//! Moon passthrough: the `moon` invocations for each verb, over the
//! application layer.
use vstd::prelude::*;
use crate::cli::{GlobalArgs, log_level_spec};
use crate::commands::workspace_tasks::{strs_view, with_affected_spec};
use crate::text::{views, string_from, push_str};

verus! {

/// The query selecting the application layer.
pub open spec fn app_layer_query() -> Seq<char> {
    "projectLayer=application"@
}

/// Append `--affected` to a target list when requested.
pub fn with_affected<'a>(args: Vec<&'a str>, affected: bool) -> (r: Vec<&'a str>)
    ensures
        strs_view(r@) == with_affected_spec(strs_view(args@), affected),
{
    let mut args = args;
    let ghost before = strs_view(args@);
    if affected {
        args.push("--affected");
        assert(strs_view(args@) =~= before.push("--affected"@));
    }
    args
}

/// The arguments of a one-shot task: the project's target, or the task across
/// the application layer; `--affected` last when asked.
pub open spec fn task_args_spec(task: Seq<char>, project: Option<Seq<char>>, affected: bool) -> Seq<Seq<char>> {
    match project {
        Some(p) => with_affected_spec(seq!["run"@, p + ":"@ + task], affected),
        None => with_affected_spec(seq!["run"@, ":"@ + task, "--query"@, app_layer_query()], affected),
    }
}

/// The arguments of a one-shot task (`build`, `test`).
pub fn task_args(task: &str, project: Option<&str>, affected: bool) -> (r: Vec<String>)
    ensures
        views(r@) == task_args_spec(
            task@,
            match project {
                Some(p) => Some(p@),
                None => None,
            },
            affected,
        ),
{
    let mut argv: Vec<String> = Vec::new();
    argv.push(string_from("run"));
    match project {
        Some(p) => {
            let mut target = string_from(p);
            push_str(&mut target, ":");
            push_str(&mut target, task);
            argv.push(target);
        },
        None => {
            argv.push(crate::config::prefixed(":", task));
            argv.push(string_from("--query"));
            argv.push(string_from("projectLayer=application"));
        },
    }
    let ghost before = views(argv@);
    if affected {
        argv.push(string_from("--affected"));
        assert(views(argv@) =~= before.push("--affected"@));
    }
    assert(views(argv@) =~= task_args_spec(
        task@,
        match project {
            Some(p) => Some(p@),
            None => None,
        },
        affected,
    ));
    argv
}

/// The arguments of a persistent task (`dev`, `start`), never filtered by
/// affected files.
pub fn persistent_args(task: &str, project: Option<&str>) -> (r: Vec<String>)
    ensures
        views(r@) == task_args_spec(
            task@,
            match project {
                Some(p) => Some(p@),
                None => None,
            },
            false,
        ),
{
    task_args(task, project, false)
}

/// The full `moon` command line: `-q` when quiet, else `--log <level>` when
/// verbose, then the arguments.
pub open spec fn moon_args_spec(quiet: bool, verbose: u8, args: Seq<Seq<char>>) -> Seq<Seq<char>> {
    (if quiet {
        seq!["-q"@]
    } else {
        match log_level_spec(verbose) {
            Some(level) => seq!["--log"@, level],
            None => seq![],
        }
    }) + args
}

/// The full `moon` command line for the global options.
pub fn moon_args(global: &GlobalArgs, args: &[&str]) -> (r: Vec<String>)
    ensures
        views(r@) == moon_args_spec(global.quiet, global.verbose, strs_view(args@)),
{
    let mut full: Vec<String> = Vec::new();
    if global.quiet {
        full.push(string_from("-q"));
    } else {
        match global.log_level() {
            Some(level) => {
                full.push(string_from("--log"));
                full.push(string_from(level));
            },
            None => {},
        }
    }
    let ghost head = views(full@);
    let ghost av = strs_view(args@);
    let mut i: usize = 0;
    while i < args.len()
        invariant
            av == strs_view(args@),
            i <= args@.len(),
            views(full@) == head + av.take(i as int),
        decreases args@.len() - i,
    {
        let ghost before = views(full@);
        full.push(string_from(args[i]));
        proof {
            assert(views(full@) =~= before.push(av[i as int]));
            assert(av.take(i + 1) =~= av.take(i as int).push(av[i as int]));
        }
        i = i + 1;
    }
    proof {
        assert(av.take(args@.len() as int) =~= av);
        assert(views(full@) =~= moon_args_spec(global.quiet, global.verbose, av));
    }
    full
}

} // verus!
