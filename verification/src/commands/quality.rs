//! `luna lint`, `format`, `typecheck`, `check` and `fix`: the tool invocations
//! for each stack.
use vstd::prelude::*;
use crate::formats::strings;
use crate::text::views;

verus! {

/// The `oxlint` arguments: `--fix` first when fixing, then the workspace.
pub fn oxlint_args(fix: bool) -> (r: Vec<String>)
    ensures
        views(r@) == if fix {
            seq!["--fix"@, "."@]
        } else {
            seq!["."@]
        },
{
    if fix {
        let r = strings(&["--fix", "."]);
        assert(views(r@) =~= seq!["--fix"@, "."@]);
        r
    } else {
        let r = strings(&["."]);
        assert(views(r@) =~= seq!["."@]);
        r
    }
}

/// The `uv` arguments running `ruff check`, with `--fix` when fixing.
pub fn ruff_check_args(fix: bool) -> (r: Vec<String>)
    ensures
        views(r@) == if fix {
            seq!["run"@, "ruff"@, "check"@, "--fix"@, "."@]
        } else {
            seq!["run"@, "ruff"@, "check"@, "."@]
        },
{
    if fix {
        let r = strings(&["run", "ruff", "check", "--fix", "."]);
        assert(views(r@) =~= seq!["run"@, "ruff"@, "check"@, "--fix"@, "."@]);
        r
    } else {
        let r = strings(&["run", "ruff", "check", "."]);
        assert(views(r@) =~= seq!["run"@, "ruff"@, "check"@, "."@]);
        r
    }
}

/// The `cargo` arguments of Clippy: fixing on a dirty tree, or denying warnings.
pub fn clippy_args(fix: bool) -> (r: Vec<String>)
    ensures
        views(r@) == if fix {
            seq!["clippy"@, "--fix"@, "--allow-dirty"@]
        } else {
            seq!["clippy"@, "--"@, "-D"@, "warnings"@]
        },
{
    if fix {
        let r = strings(&["clippy", "--fix", "--allow-dirty"]);
        assert(views(r@) =~= seq!["clippy"@, "--fix"@, "--allow-dirty"@]);
        r
    } else {
        let r = strings(&["clippy", "--", "-D", "warnings"]);
        assert(views(r@) =~= seq!["clippy"@, "--"@, "-D"@, "warnings"@]);
        r
    }
}

/// The `oxfmt` arguments: list differences when checking.
pub fn oxfmt_args(check: bool) -> (r: Vec<String>)
    ensures
        views(r@) == if check {
            seq!["--list-different"@, "."@]
        } else {
            seq!["."@]
        },
{
    if check {
        let r = strings(&["--list-different", "."]);
        assert(views(r@) =~= seq!["--list-different"@, "."@]);
        r
    } else {
        let r = strings(&["."]);
        assert(views(r@) =~= seq!["."@]);
        r
    }
}

/// The `uv` arguments running `ruff format`, with `--check` when checking.
pub fn ruff_format_args(check: bool) -> (r: Vec<String>)
    ensures
        views(r@) == if check {
            seq!["run"@, "ruff"@, "format"@, "--check"@, "."@]
        } else {
            seq!["run"@, "ruff"@, "format"@, "."@]
        },
{
    if check {
        let r = strings(&["run", "ruff", "format", "--check", "."]);
        assert(views(r@) =~= seq!["run"@, "ruff"@, "format"@, "--check"@, "."@]);
        r
    } else {
        let r = strings(&["run", "ruff", "format", "."]);
        assert(views(r@) =~= seq!["run"@, "ruff"@, "format"@, "."@]);
        r
    }
}

/// The `cargo fmt` arguments, with `--check` when checking.
pub fn cargo_fmt_args(check: bool) -> (r: Vec<String>)
    ensures
        views(r@) == if check {
            seq!["fmt"@, "--check"@]
        } else {
            seq!["fmt"@]
        },
{
    if check {
        let r = strings(&["fmt", "--check"]);
        assert(views(r@) =~= seq!["fmt"@, "--check"@]);
        r
    } else {
        let r = strings(&["fmt"]);
        assert(views(r@) =~= seq!["fmt"@]);
        r
    }
}

} // verus!
