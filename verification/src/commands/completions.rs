//! `luna completions`: which shell to generate completions for.
use vstd::prelude::*;
use crate::text::str_eq;

verus! {

/// A shell that completions can be generated for.
#[derive(Clone, Copy, PartialEq, Eq, Structural, Debug)]
pub enum ShellName {
    Bash,
    Elvish,
    Fish,
    PowerShell,
    Zsh,
}

/// The shell a name selects; anything unknown is Bash.
pub open spec fn parse_shell_spec(s: Seq<char>) -> ShellName {
    if s == "elvish"@ {
        ShellName::Elvish
    } else if s == "fish"@ {
        ShellName::Fish
    } else if s == "powershell"@ {
        ShellName::PowerShell
    } else if s == "zsh"@ {
        ShellName::Zsh
    } else {
        ShellName::Bash
    }
}

/// The shell named `s`.
pub fn parse_shell(s: &str) -> (r: ShellName)
    ensures
        r == parse_shell_spec(s@),
{
    if str_eq(s, "elvish") {
        ShellName::Elvish
    } else if str_eq(s, "fish") {
        ShellName::Fish
    } else if str_eq(s, "powershell") {
        ShellName::PowerShell
    } else if str_eq(s, "zsh") {
        ShellName::Zsh
    } else {
        ShellName::Bash
    }
}

} // verus!
