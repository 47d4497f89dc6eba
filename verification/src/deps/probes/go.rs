//! Go: the upgrades reported by `go list -m -u`.
use vstd::prelude::*;
use crate::deps::model::{DependencyRow, DependencyRowView, ToolchainKind, outdated_row, row_views};
use crate::text::{
    trim, trim_chars, split_whitespace, split_whitespace_exec, starts_with, starts_with_str,
    trim_start_char, trim_end_char, trim_start_char_exec, trim_end_char_exec, lines, lines_str,
    string_of, string_from,
};

verus! {

/// The upgrade a `go list -m -u` line reports, if any: `path current [newest]`.
pub open spec fn go_line_upgrade(line: Seq<char>) -> Option<(Seq<char>, Seq<char>, Seq<char>)> {
    let parts = split_whitespace(trim(line));
    if parts.len() < 3 || !starts_with(parts[2], "["@) {
        None
    } else {
        Some((parts[0], parts[1], trim_end_char(trim_start_char(parts[2], '['), ']')))
    }
}

/// The upgrades reported by a list of lines, in order.
pub open spec fn go_upgrades(lines: Seq<Seq<char>>) -> Seq<(Seq<char>, Seq<char>, Seq<char>)>
    decreases lines.len(),
{
    if lines.len() == 0 {
        seq![]
    } else {
        go_upgrades(lines.drop_last()) + match go_line_upgrade(lines.last()) {
            Some(u) => seq![u],
            None => seq![],
        }
    }
}

/// The model of a list of string triples.
pub open spec fn triples_view(v: Seq<(String, String, String)>) -> Seq<(Seq<char>, Seq<char>, Seq<char>)> {
    v.map_values(|t: (String, String, String)| (t.0@, t.1@, t.2@))
}

fn go_line_upgrade_exec(line: &[char]) -> (r: Option<(String, String, String)>)
    ensures
        match r {
            Some(t) => go_line_upgrade(line@) == Some((t.0@, t.1@, t.2@)),
            None => go_line_upgrade(line@) is None,
        },
{
    let t = trim_chars(line);
    let parts = split_whitespace_exec(t.as_slice());
    let ghost pv = parts@.map_values(|p: Vec<char>| p@);
    if parts.len() < 3 {
        return None;
    }
    assert(parts@[0]@ == pv[0] && parts@[1]@ == pv[1] && parts@[2]@ == pv[2]);
    if !starts_with_str(parts[2].as_slice(), "[") {
        return None;
    }
    let a = trim_start_char_exec(parts[2].as_slice(), '[');
    let b = trim_end_char_exec(a.as_slice(), ']');
    Some((string_of(parts[0].as_slice()), string_of(parts[1].as_slice()), string_of(b.as_slice())))
}

/// Parse `go list -m -u` lines `path current [newest]` into upgrade tuples.
pub fn parse_go_list_upgrades(stdout: &str) -> (r: Vec<(String, String, String)>)
    ensures
        triples_view(r@) == go_upgrades(lines(stdout@)),
{
    let ls = lines_str(stdout);
    let ghost lv = ls@.map_values(|p: Vec<char>| p@);
    let mut out: Vec<(String, String, String)> = Vec::new();
    let mut i: usize = 0;
    while i < ls.len()
        invariant
            lv == lines(stdout@),
            ls@.map_values(|p: Vec<char>| p@) == lv,
            i <= ls@.len(),
            triples_view(out@) == go_upgrades(lv.take(i as int)),
        decreases ls@.len() - i,
    {
        proof {
            assert(lv.take(i + 1).drop_last() =~= lv.take(i as int));
            assert(ls@[i as int]@ == lv[i as int]);
        }
        match go_line_upgrade_exec(ls[i].as_slice()) {
            Some(t) => {
                out.push(t);
            },
            None => {},
        }
        proof {
            assert(triples_view(out@) =~= go_upgrades(lv.take(i + 1)));
        }
        i = i + 1;
    }
    proof {
        assert(lv.take(ls@.len() as int) =~= lv);
    }
    out
}

/// The dependency row for one Go upgrade found in the module at `module`.
pub open spec fn go_row(module: Seq<char>, u: (Seq<char>, Seq<char>, Seq<char>)) -> DependencyRowView {
    DependencyRowView {
        source_path: Some(module),
        ..outdated_row(ToolchainKind::Go, u.0, u.1, Some(u.2), None)
    }
}

/// A `go list -m -u` line whose words are a module path, its current version and
/// a bracketed newer version gives one outdated row for the module at `module`:
/// the path as the dependency, the second word as the current version and the
/// bracketed word as the newest one, with no latest version.
pub proof fn lemma_go_line_row(module: Seq<char>, line: Seq<char>, path: Seq<char>, current: Seq<char>, newest: Seq<char>)
    requires
        split_whitespace(trim(line)) == seq![path, current, seq!['['] + newest + seq![']']],
        newest.len() > 0,
        newest[0] != '[',
        newest.last() != ']',
    ensures
        go_upgrades(seq![line]).map_values(|u: (Seq<char>, Seq<char>, Seq<char>)| go_row(module, u)).len() == 1,
        ({
            let row = go_upgrades(seq![line]).map_values(|u: (Seq<char>, Seq<char>, Seq<char>)| go_row(module, u))[0];
            &&& row.toolchain == ToolchainKind::Go
            &&& row.dependency == path
            &&& row.current == current
            &&& row.newest == Some(newest)
            &&& row.latest is None
            &&& row.source_path == Some(module)
        }),
{
    let b = seq!['['] + newest + seq![']'];
    reveal_strlit("[");
    assert(b.subrange(0, 1) =~= "["@);
    assert(starts_with(b, "["@));
    assert(b.drop_first() =~= newest + seq![']']);
    assert(trim_start_char(b.drop_first(), '[') == newest + seq![']']);
    assert(trim_start_char(b, '[') == newest + seq![']']);
    assert((newest + seq![']']).drop_last() =~= newest);
    assert(trim_end_char(newest, ']') == newest);
    assert(trim_end_char(newest + seq![']'], ']') == newest);
    assert(go_line_upgrade(line) == Some((path, current, newest)));
    assert(seq![line].drop_last() =~= Seq::<Seq<char>>::empty());
    assert(go_upgrades(Seq::<Seq<char>>::empty()) =~= seq![]);
    assert(go_upgrades(seq![line]) =~= seq![(path, current, newest)]);
}

/// The rows of a multi-line `go list -m -u` output are the rows of its lines,
/// in order: appending a line appends exactly that line's rows.
pub proof fn lemma_go_rows_append_line(module: Seq<char>, ls: Seq<Seq<char>>, line: Seq<char>)
    ensures
        go_upgrades(ls.push(line)).map_values(|u: (Seq<char>, Seq<char>, Seq<char>)| go_row(module, u))
            == go_upgrades(ls).map_values(|u: (Seq<char>, Seq<char>, Seq<char>)| go_row(module, u)) + go_upgrades(
            seq![line],
        ).map_values(|u: (Seq<char>, Seq<char>, Seq<char>)| go_row(module, u)),
{
    assert(ls.push(line).drop_last() =~= ls);
    assert(seq![line].drop_last() =~= Seq::<Seq<char>>::empty());
    assert(go_upgrades(Seq::<Seq<char>>::empty()) =~= seq![]);
    assert(go_upgrades(seq![line]) =~= match go_line_upgrade(line) {
        Some(u) => seq![u],
        None => seq![],
    });
    assert(go_upgrades(ls.push(line)) =~= go_upgrades(ls) + go_upgrades(seq![line]));
    assert(go_upgrades(ls.push(line)).map_values(|u: (Seq<char>, Seq<char>, Seq<char>)| go_row(module, u))
        =~= go_upgrades(ls).map_values(|u: (Seq<char>, Seq<char>, Seq<char>)| go_row(module, u)) + go_upgrades(
        seq![line],
    ).map_values(|u: (Seq<char>, Seq<char>, Seq<char>)| go_row(module, u)));
}

/// The outdated rows for the `go list -m -u` output of the module at `module`.
pub fn go_module_rows(module: &str, stdout: &str) -> (r: Vec<DependencyRow>)
    ensures
        row_views(r@) == go_upgrades(lines(stdout@)).map_values(
            |u: (Seq<char>, Seq<char>, Seq<char>)| go_row(module@, u),
        ),
{
    let ups = parse_go_list_upgrades(stdout);
    let ghost uv = triples_view(ups@);
    let mut rows: Vec<DependencyRow> = Vec::new();
    let mut i: usize = 0;
    while i < ups.len()
        invariant
            uv == triples_view(ups@),
            i <= ups@.len(),
            row_views(rows@) == uv.take(i as int).map_values(
                |u: (Seq<char>, Seq<char>, Seq<char>)| go_row(module@, u),
            ),
        decreases ups@.len() - i,
    {
        let (path, current, newest) = (ups[i].0.clone(), ups[i].1.clone(), ups[i].2.clone());
        let mut dep = DependencyRow::outdated(ToolchainKind::Go, path, current, Some(newest), None);
        dep.source_path = Some(string_from(module));
        let ghost old_rows = row_views(rows@);
        rows.push(dep);
        proof {
            assert(row_views(rows@) =~= old_rows.push(go_row(module@, uv[i as int])));
            assert(uv.take(i + 1).map_values(|u: (Seq<char>, Seq<char>, Seq<char>)| go_row(module@, u))
                =~= uv.take(i as int).map_values(|u: (Seq<char>, Seq<char>, Seq<char>)| go_row(module@, u)).push(go_row(module@, uv[i as int])));
        }
        i = i + 1;
    }
    proof {
        assert(uv.take(ups@.len() as int) =~= uv);
    }
    rows
}


/// The model of one probed module: its path, its path relative to the
/// workspace root, and what capturing `go list -m -u` gave (stdout or error).
pub open spec fn go_capture_view(m: (String, String, Result<crate::runner::Output, String>)) -> (
    Seq<char>,
    Seq<char>,
    Result<Seq<char>, Seq<char>>,
) {
    (m.0@, m.1@, match m.2 {
        Ok(o) => Ok(o.stdout@),
        Err(e) => Err(e@),
    })
}

/// The rows found across probed modules, in order.
pub open spec fn go_probe_rows(ms: Seq<(Seq<char>, Seq<char>, Result<Seq<char>, Seq<char>>)>) -> Seq<DependencyRowView>
    decreases ms.len(),
{
    if ms.len() == 0 {
        seq![]
    } else {
        go_probe_rows(ms.drop_last()) + match ms.last().2 {
            Ok(out) => go_upgrades(lines(out)).map_values(
                |u: (Seq<char>, Seq<char>, Seq<char>)| go_row(ms.last().0, u),
            ),
            Err(_) => seq![],
        }
    }
}

/// One diagnostic per module whose capture failed: `rel: error`.
pub open spec fn go_probe_diagnostics(ms: Seq<(Seq<char>, Seq<char>, Result<Seq<char>, Seq<char>>)>) -> Seq<Seq<char>>
    decreases ms.len(),
{
    if ms.len() == 0 {
        seq![]
    } else {
        go_probe_diagnostics(ms.drop_last()) + match ms.last().2 {
            Ok(_) => seq![],
            Err(e) => seq![ms.last().1 + ": "@ + e],
        }
    }
}

/// The outcome of probing Go modules: up to date when there are none, failed
/// when `go` is missing, else the upgrades of every module and one diagnostic
/// per module that could not be listed.
pub open spec fn go_probe_spec(installed: bool, ms: Seq<(Seq<char>, Seq<char>, Result<Seq<char>, Seq<char>>)>) -> crate::deps::probes::ProbeOutcomeView {
    if ms.len() == 0 {
        crate::deps::probes::up_to_date_spec()
    } else if !installed {
        crate::deps::probes::failed_spec("go is not installed"@)
    } else {
        crate::deps::probes::ProbeOutcomeView {
            diagnostics: go_probe_diagnostics(ms),
            ..crate::deps::probes::outdated_spec(go_probe_rows(ms))
        }
    }
}

/// Probe Go modules from the `go list -m -u` result of each discovered module.
pub fn probe(installed: bool, modules: &[(String, String, Result<crate::runner::Output, String>)]) -> (r:
    crate::deps::probes::ProbeOutcome)
    ensures
        r@ == go_probe_spec(installed, modules@.map_values(|m: (String, String, Result<crate::runner::Output, String>)| go_capture_view(m))),
{
    let ghost mv = modules@.map_values(|m: (String, String, Result<crate::runner::Output, String>)| go_capture_view(m));
    if modules.len() == 0 {
        return crate::deps::probes::ProbeOutcome::up_to_date();
    }
    if !installed {
        return crate::deps::probes::ProbeOutcome::failed(string_from("go is not installed"));
    }
    let mut rows: Vec<DependencyRow> = Vec::new();
    let mut diagnostics: Vec<String> = Vec::new();
    let mut i: usize = 0;
    while i < modules.len()
        invariant
            mv == modules@.map_values(|m: (String, String, Result<crate::runner::Output, String>)| go_capture_view(m)),
            i <= modules@.len(),
            row_views(rows@) == go_probe_rows(mv.take(i as int)),
            crate::text::views(diagnostics@) == go_probe_diagnostics(mv.take(i as int)),
        decreases modules@.len() - i,
    {
        proof {
            assert(mv.take(i + 1).drop_last() =~= mv.take(i as int));
            assert(mv[i as int] == go_capture_view(modules@[i as int]));
        }
        let ghost rv = row_views(rows@);
        let ghost dv = crate::text::views(diagnostics@);
        match &modules[i].2 {
            Ok(o) => {
                let mut found = go_module_rows(modules[i].0.as_str(), o.stdout.as_str());
                let ghost fv = row_views(found@);
                rows.append(&mut found);
                proof {
                    assert(row_views(rows@) =~= rv + fv);
                    assert(crate::text::views(diagnostics@) =~= go_probe_diagnostics(mv.take(i + 1)));
                }
            },
            Err(e) => {
                let mut m = string_from(modules[i].1.as_str());
                crate::text::push_str(&mut m, ": ");
                crate::text::push_str(&mut m, e.as_str());
                diagnostics.push(m);
                proof {
                    assert(crate::text::views(diagnostics@) =~= dv.push(m@));
                    assert(row_views(rows@) =~= go_probe_rows(mv.take(i + 1)));
                }
            },
        }
        i = i + 1;
    }
    proof {
        assert(mv.take(modules@.len() as int) =~= mv);
    }
    let outcome = crate::deps::probes::ProbeOutcome::outdated(rows);
    let mut outcome = outcome;
    let ghost od = outcome.diagnostics@;
    outcome.diagnostics.append(&mut diagnostics);
    proof {
        assert(crate::text::views(od) =~= seq![]);
        assert(crate::text::views(outcome.diagnostics@) =~= go_probe_diagnostics(mv));
    }
    outcome
}

} // verus!
