//! `luna pkg add/remove`: which package manager handles a project.
use vstd::prelude::*;
use crate::text::{views, string_from, push_str, str_eq};

verus! {

/// Which package manifests a project directory holds.
pub struct ProjectManifests {
    /// The configured Bun manifest.
    pub bun: bool,
    /// The configured uv manifest.
    pub uv: bool,
    /// The configured Cargo manifest.
    pub cargo: bool,
    /// `go.mod`.
    pub go: bool,
}

/// The verb of an add or a remove.
pub open spec fn pkg_verb(add: bool) -> Seq<char> {
    if add {
        "add"@
    } else {
        "remove"@
    }
}

/// The command that adds or removes `package` in a project: Bun, then uv, then
/// Cargo take `<verb> <package>`; Go takes `get <package>` or `get -<package>`;
/// none is an error.
pub open spec fn pkg_command_spec(m: ProjectManifests, package: Seq<char>, add: bool) -> Option<(Seq<char>, Seq<Seq<char>>)> {
    if m.bun {
        Some(("bun"@, seq![pkg_verb(add), package]))
    } else if m.uv {
        Some(("uv"@, seq![pkg_verb(add), package]))
    } else if m.cargo {
        Some(("cargo"@, seq![pkg_verb(add), package]))
    } else if m.go {
        Some(("go"@, seq!["get"@, if add { package } else { "-"@ + package }]))
    } else {
        None
    }
}

fn verb_args(verb: &str, package: &str) -> (r: Vec<String>)
    ensures
        views(r@) == seq![verb@, package@],
{
    let mut v: Vec<String> = Vec::new();
    v.push(string_from(verb));
    v.push(string_from(package));
    assert(views(v@) =~= seq![verb@, package@]);
    v
}

/// Resolve the program and arguments that add (or remove) `package`.
pub fn resolve_pkg_cmd(manifests: &ProjectManifests, package: &str, add: bool) -> (r: Result<(String, Vec<String>), String>)
    ensures
        match r {
            Ok((p, a)) => pkg_command_spec(*manifests, package@, add) == Some((p@, views(a@))),
            Err(e) => pkg_command_spec(*manifests, package@, add) is None
                && e@ == "no supported package manifest found for project"@,
        },
{
    let verb = if add { "add" } else { "remove" };
    if manifests.bun {
        return Ok((string_from("bun"), verb_args(verb, package)));
    }
    if manifests.uv {
        return Ok((string_from("uv"), verb_args(verb, package)));
    }
    if manifests.cargo {
        return Ok((string_from("cargo"), verb_args(verb, package)));
    }
    if manifests.go {
        let arg = if add {
            string_from(package)
        } else {
            crate::config::prefixed("-", package)
        };
        let mut v: Vec<String> = Vec::new();
        v.push(string_from("get"));
        v.push(arg);
        assert(views(v@) =~= seq!["get"@, if add { package@ } else { "-"@ + package@ }]);
        return Ok((string_from("go"), v));
    }
    Err(string_from("no supported package manifest found for project"))
}

/// The directory a package command runs in: the workspace root, or the path of
/// the named project among `(name, path)` projects; an unknown name is an error.
pub fn resolve_project_dir(root: &str, project: Option<&str>, projects: &[(String, String)]) -> (r: Result<String, String>)
    ensures
        match project {
            None => r matches Ok(d) && d@ == root@,
            Some(id) => match r {
                Ok(d) => exists|i: int|
                    0 <= i < projects@.len() && #[trigger] projects@[i].0@ == id@ && projects@[i].1@ == d@ && forall|
                        j: int,
                    | 0 <= j < i ==> (#[trigger] projects@[j]).0@ != id@,
                Err(e) => (forall|i: int| 0 <= i < projects@.len() ==> (#[trigger] projects@[i]).0@ != id@)
                    && e@ == "unknown project id: "@ + id@,
            },
        },
{
    match project {
        None => Ok(string_from(root)),
        Some(id) => {
            let mut i: usize = 0;
            while i < projects.len()
                invariant
                    project == Some(id),
                    i <= projects@.len(),
                    forall|j: int| 0 <= j < i ==> (#[trigger] projects@[j]).0@ != id@,
                decreases projects@.len() - i,
            {
                if str_eq(projects[i].0.as_str(), id) {
                    return Ok(projects[i].1.clone());
                }
                i = i + 1;
            }
            let mut e = string_from("unknown project id: ");
            push_str(&mut e, id);
            Err(e)
        },
    }
}

} // verus!
