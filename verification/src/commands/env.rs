//! `luna env`: Pixi environments, and the commands that sync or run in them.
use vstd::prelude::*;
use crate::formats::{toml_table, toml_table_at, opt_strs_view, table_entries_view};
use crate::text::{views, join, join_strings, string_from};

verus! {

/// One Pixi environment and its features.
pub struct EnvEntry {
    pub name: String,
    pub features: Vec<String>,
}

/// The `luna env list` report.
pub struct EnvListReport {
    pub schema_version: String,
    pub environments: Vec<EnvEntry>,
}

/// The model of an environment entry.
pub open spec fn env_view(e: EnvEntry) -> (Seq<char>, Seq<Seq<char>>) {
    (e.name@, views(e.features@))
}

/// The strings among a list of optional strings, in order.
pub open spec fn present_strings(v: Seq<Option<Seq<char>>>) -> Seq<Seq<char>>
    decreases v.len(),
{
    if v.len() == 0 {
        seq![]
    } else {
        present_strings(v.drop_last()) + match v.last() {
            Some(s) => seq![s],
            None => seq![],
        }
    }
}

/// The environment an `[environments]` entry declares: its features are the
/// strings of its array value, none otherwise.
pub open spec fn env_entry_spec(entry: (Seq<char>, Option<Seq<Option<Seq<char>>>>)) -> (Seq<char>, Seq<Seq<char>>) {
    (entry.0, match entry.1 {
        Some(a) => present_strings(a),
        None => seq![],
    })
}

/// The single `default` environment.
pub open spec fn default_envs() -> Seq<(Seq<char>, Seq<Seq<char>>)> {
    seq![("default"@, seq![])]
}

/// The environments of a Pixi manifest, given its text (`None` when it cannot
/// be read): those of its `[environments]` table, or just `default` when there
/// is no such table or the text is not TOML.
pub open spec fn pixi_environments_spec(text: Option<Seq<char>>) -> Seq<(Seq<char>, Seq<Seq<char>>)> {
    match text {
        None => default_envs(),
        Some(t) => match toml_table_at(t, seq!["environments"@]) {
            None => default_envs(),
            Some(entries) => entries.map_values(
                |e: (Seq<char>, Option<Seq<Option<Seq<char>>>>)| env_entry_spec(e),
            ),
        },
    }
}

fn default_env() -> (r: Vec<EnvEntry>)
    ensures
        r@.map_values(|e: EnvEntry| env_view(e)) == default_envs(),
{
    let mut v: Vec<EnvEntry> = Vec::new();
    let features: Vec<String> = Vec::new();
    v.push(EnvEntry { name: string_from("default"), features });
    assert(views(v@[0].features@) =~= seq![]);
    assert(v@.map_values(|e: EnvEntry| env_view(e)) =~= default_envs());
    v
}

/// The strings among a list of optional strings, in order.
pub fn strings_present(v: &Vec<Option<String>>) -> (r: Vec<String>)
    ensures
        views(r@) == present_strings(opt_strs_view(v@)),
{
    let ghost vv = opt_strs_view(v@);
    let mut r: Vec<String> = Vec::new();
    let mut i: usize = 0;
    while i < v.len()
        invariant
            vv == opt_strs_view(v@),
            i <= v@.len(),
            views(r@) == present_strings(vv.take(i as int)),
        decreases v@.len() - i,
    {
        proof {
            assert(vv.take(i + 1).drop_last() =~= vv.take(i as int));
        }
        let ghost before = views(r@);
        match &v[i] {
            Some(s) => {
                r.push(s.clone());
                assert(views(r@) =~= before.push(s@));
            },
            None => {},
        }
        proof {
            assert(views(r@) =~= present_strings(vv.take(i + 1)));
        }
        i = i + 1;
    }
    proof {
        assert(vv.take(v@.len() as int) =~= vv);
    }
    r
}

/// The environments declared in a Pixi manifest text.
pub fn parse_pixi_environments(text: Option<&str>) -> (r: Vec<EnvEntry>)
    ensures
        r@.map_values(|e: EnvEntry| env_view(e)) == pixi_environments_spec(
            match text {
                Some(t) => Some(t@),
                None => None,
            },
        ),
{
    let t = match text {
        Some(t) => t,
        None => return default_env(),
    };
    let path = crate::formats::strings(&["environments"]);
    proof {
        assert(views(path@) =~= seq!["environments"@]);
    }
    match toml_table(t, &path) {
        Some(entries) => {
            assert(entries@.map_values(|e: (String, Option<Vec<Option<String>>>)| (e.0@, match e.1 {
                Some(a) => Some(opt_strs_view(a@)),
                None => None,
            })) =~= table_entries_view(entries@));
            environments_from(&entries)
        },
        None => default_env(),
    }
}

/// The environments of a parsed `[environments]` table, in order: each entry's
/// name, with the strings of its array value as features (none when the value
/// is not an array).
pub fn environments_from(entries: &Vec<(String, Option<Vec<Option<String>>>)>) -> (r: Vec<EnvEntry>)
    ensures
        r@.map_values(|e: EnvEntry| env_view(e)) == table_entries_view(entries@).map_values(
            |e: (Seq<char>, Option<Seq<Option<Seq<char>>>>)| env_entry_spec(e),
        ),
{
    let ghost ev = table_entries_view(entries@);
    let mut out: Vec<EnvEntry> = Vec::new();
    let mut i: usize = 0;
    while i < entries.len()
        invariant
            ev == table_entries_view(entries@),
            i <= entries@.len(),
            out@.map_values(|e: EnvEntry| env_view(e)) == ev.take(i as int).map_values(
                |e: (Seq<char>, Option<Seq<Option<Seq<char>>>>)| env_entry_spec(e),
            ),
        decreases entries@.len() - i,
    {
        let features = match &entries[i].1 {
            Some(a) => strings_present(a),
            None => {
                let f: Vec<String> = Vec::new();
                assert(views(f@) =~= seq![]);
                f
            },
        };
        let x = EnvEntry { name: entries[i].0.clone(), features };
        let ghost before = out@.map_values(|e: EnvEntry| env_view(e));
        out.push(x);
        proof {
            assert(ev[i as int] == (entries@[i as int].0@, match entries@[i as int].1 {
                Some(a) => Some(opt_strs_view(a@)),
                None => None,
            }));
            assert(env_view(x) == env_entry_spec(ev[i as int]));
            assert(out@.map_values(|e: EnvEntry| env_view(e)) =~= before.push(env_view(x)));
            assert(ev.take(i + 1).map_values(|e: (Seq<char>, Option<Seq<Option<Seq<char>>>>)| env_entry_spec(e))
                =~= ev.take(i as int).map_values(|e: (Seq<char>, Option<Seq<Option<Seq<char>>>>)| env_entry_spec(e)).push(env_entry_spec(ev[i as int])));
        }
        i = i + 1;
    }
    proof {
        assert(ev.take(entries@.len() as int) =~= ev);
    }
    out
}

/// How an environment's features are listed: joined with `, `, or `(default)`
/// when it has none.
pub fn features_text(entry: &EnvEntry) -> (r: String)
    ensures
        r@ == if entry.features@.len() == 0 {
            "(default)"@
        } else {
            join(views(entry.features@), ", "@)
        },
{
    if entry.features.len() == 0 {
        string_from("(default)")
    } else {
        join_strings(&entry.features, ", ")
    }
}

/// The arguments of `pixi install` for one environment.
pub open spec fn env_install_args_spec(env: Seq<char>, locked: bool) -> Seq<Seq<char>> {
    seq!["install"@, "-e"@, env] + if locked {
        seq!["--locked"@]
    } else {
        seq![]
    }
}

/// The arguments of `pixi install` for one environment, locked when asked for.
pub fn env_install_args(env: &str, locked: bool) -> (r: Vec<String>)
    ensures
        views(r@) == env_install_args_spec(env@, locked),
{
    let mut args: Vec<String> = Vec::new();
    args.push(string_from("install"));
    args.push(string_from("-e"));
    args.push(string_from(env));
    if locked {
        args.push(string_from("--locked"));
    }
    assert(views(args@) =~= env_install_args_spec(env@, locked));
    args
}

/// The program and arguments `luna env exec` runs: through `pixi run` (in the
/// given environment) when Pixi is in use, else the command itself.
pub open spec fn env_exec_spec(pixi: bool, env: Option<Seq<char>>, command: Seq<Seq<char>>) -> Option<
    (Seq<char>, Seq<Seq<char>>),
> {
    if command.len() == 0 {
        None
    } else if pixi {
        Some((
            "pixi"@,
            seq!["run"@] + match env {
                Some(e) => seq!["-e"@, e],
                None => seq![],
            } + seq!["--"@] + command,
        ))
    } else {
        Some((command[0], command.skip(1)))
    }
}

/// Resolve `luna env exec`: an error when no command follows `--`.
pub fn env_exec_command(pixi: bool, env: Option<&str>, command: &[String]) -> (r: Result<(String, Vec<String>), String>)
    ensures
        match r {
            Ok((p, a)) => env_exec_spec(
                pixi,
                match env {
                    Some(e) => Some(e@),
                    None => None,
                },
                views(command@),
            ) == Some((p@, views(a@))),
            Err(e) => command@.len() == 0 && e@ == "env exec requires a command after `--`"@,
        },
        (r is Err) == (command@.len() == 0),
{
    if command.len() == 0 {
        return Err(string_from("env exec requires a command after `--`"));
    }
    let ghost cv = views(command@);
    if pixi {
        let mut args: Vec<String> = Vec::new();
        args.push(string_from("run"));
        match env {
            Some(e) => {
                args.push(string_from("-e"));
                args.push(string_from(e));
            },
            None => {},
        }
        args.push(string_from("--"));
        let ghost prefix = views(args@);
        let tail = crate::security::clone_strings(command);
        let mut tail = tail;
        args.append(&mut tail);
        assert(views(args@) =~= prefix + cv);
        assert(views(args@) =~= seq!["run"@] + match env {
            Some(e) => seq!["-e"@, e@],
            None => seq![],
        } + seq!["--"@] + cv);
        Ok((string_from("pixi"), args))
    } else {
        let mut rest: Vec<String> = Vec::new();
        let mut i: usize = 1;
        while i < command.len()
            invariant
                cv == views(command@),
                1 <= i <= command@.len(),
                views(rest@) == cv.subrange(1, i as int),
            decreases command@.len() - i,
        {
            let ghost before = views(rest@);
            rest.push(command[i].clone());
            proof {
                assert(views(rest@) =~= before.push(cv[i as int]));
                assert(cv.subrange(1, i + 1) =~= cv.subrange(1, i as int).push(cv[i as int]));
            }
            i = i + 1;
        }
        assert(cv.subrange(1, command@.len() as int) =~= cv.skip(1));
        Ok((command[0].clone(), rest))
    }
}

} // verus!
