//! uv: the updates reported by `uv lock --upgrade --dry-run`.
use vstd::prelude::*;
use crate::deps::model::{DependencyRow, DependencyRowView, ToolchainKind, outdated_row, row_views};
use crate::deps::probes::go::triples_view;
use crate::text::{
    trim, trim_chars, starts_with, starts_with_str, trim_start_char, trim_start_char_exec, split_once,
    split_once_str, rsplit_once_char, rsplit_once_char_exec, lines, lines_str, slice_chars, string_of,
    string_from,
};

verus! {

/// A version without surrounding whitespace and leading `v`s.
pub open spec fn strip_v(version: Seq<char>) -> Seq<char> {
    trim_start_char(trim(version), 'v')
}

/// The update an `Update pkg vFROM -> vTO` line reports, if any.
pub open spec fn uv_line_update(line: Seq<char>) -> Option<(Seq<char>, Seq<char>, Seq<char>)> {
    let t = trim(line);
    if !starts_with(t, "Update "@) {
        None
    } else {
        match split_once(t.skip(7), " -> "@) {
            None => None,
            Some((left, right)) => Some(
                match rsplit_once_char(left, ' ') {
                    Some((p, v)) => (p, strip_v(v), strip_v(right)),
                    None => (left, strip_v(left), strip_v(right)),
                },
            ),
        }
    }
}

/// The updates reported by a list of lines, in order.
pub open spec fn uv_updates(lines: Seq<Seq<char>>) -> Seq<(Seq<char>, Seq<char>, Seq<char>)>
    decreases lines.len(),
{
    if lines.len() == 0 {
        seq![]
    } else {
        uv_updates(lines.drop_last()) + match uv_line_update(lines.last()) {
            Some(u) => seq![u],
            None => seq![],
        }
    }
}

fn strip_v_prefix(version: &[char]) -> (r: Vec<char>)
    ensures
        r@ == strip_v(version@),
{
    let t = trim_chars(version);
    trim_start_char_exec(t.as_slice(), 'v')
}

fn uv_line_update_exec(line: &[char]) -> (r: Option<(String, String, String)>)
    ensures
        match r {
            Some(t) => uv_line_update(line@) == Some((t.0@, t.1@, t.2@)),
            None => uv_line_update(line@) is None,
        },
{
    let t = trim_chars(line);
    if !starts_with_str(t.as_slice(), "Update ") {
        return None;
    }
    proof {
        reveal_strlit("Update ");
    }
    let rest = slice_chars(t.as_slice(), 7, t.len());
    assert(rest@ =~= t@.skip(7));
    match split_once_str(rest.as_slice(), " -> ") {
        None => None,
        Some((left, right)) => {
            let to_ver = strip_v_prefix(right.as_slice());
            match rsplit_once_char_exec(left.as_slice(), ' ') {
                Some((p, v)) => {
                    let from_ver = strip_v_prefix(v.as_slice());
                    Some((string_of(p.as_slice()), string_of(from_ver.as_slice()), string_of(to_ver.as_slice())))
                },
                None => {
                    let from_ver = strip_v_prefix(left.as_slice());
                    Some((string_of(left.as_slice()), string_of(from_ver.as_slice()), string_of(to_ver.as_slice())))
                },
            }
        },
    }
}

/// `uv lock --upgrade --dry-run` lines (`Update pkg vFROM -> vTO`).
pub fn parse_uv_dry_run_updates(text: &str) -> (r: Vec<(String, String, String)>)
    ensures
        triples_view(r@) == uv_updates(lines(text@)),
{
    let ls = lines_str(text);
    let ghost lv = ls@.map_values(|p: Vec<char>| p@);
    let mut out: Vec<(String, String, String)> = Vec::new();
    let mut i: usize = 0;
    while i < ls.len()
        invariant
            lv == lines(text@),
            ls@.map_values(|p: Vec<char>| p@) == lv,
            i <= ls@.len(),
            triples_view(out@) == uv_updates(lv.take(i as int)),
        decreases ls@.len() - i,
    {
        proof {
            assert(lv.take(i + 1).drop_last() =~= lv.take(i as int));
            assert(ls@[i as int]@ == lv[i as int]);
        }
        match uv_line_update_exec(ls[i].as_slice()) {
            Some(t) => {
                out.push(t);
            },
            None => {},
        }
        proof {
            assert(triples_view(out@) =~= uv_updates(lv.take(i + 1)));
        }
        i = i + 1;
    }
    proof {
        assert(lv.take(ls@.len() as int) =~= lv);
    }
    out
}

/// The dependency row for one uv update found in the project at `project`.
pub open spec fn uv_row(project: Seq<char>, u: (Seq<char>, Seq<char>, Seq<char>)) -> DependencyRowView {
    DependencyRowView {
        source_path: Some(project),
        ..outdated_row(ToolchainKind::Uv, u.0, u.1, Some(u.2), Some(u.2))
    }
}

/// The outdated rows for the dry-run output of the uv project at `project`.
pub fn uv_project_rows(project: &str, text: &str) -> (r: Vec<DependencyRow>)
    ensures
        row_views(r@) == uv_updates(lines(text@)).map_values(
            |u: (Seq<char>, Seq<char>, Seq<char>)| uv_row(project@, u),
        ),
{
    let ups = parse_uv_dry_run_updates(text);
    let ghost uv = triples_view(ups@);
    let mut rows: Vec<DependencyRow> = Vec::new();
    let mut i: usize = 0;
    while i < ups.len()
        invariant
            uv == triples_view(ups@),
            i <= ups@.len(),
            row_views(rows@) == uv.take(i as int).map_values(
                |u: (Seq<char>, Seq<char>, Seq<char>)| uv_row(project@, u),
            ),
        decreases ups@.len() - i,
    {
        let package = ups[i].0.clone();
        let from_ver = ups[i].1.clone();
        let to_ver = ups[i].2.clone();
        let to_ver2 = ups[i].2.clone();
        let mut dep = DependencyRow::outdated(ToolchainKind::Uv, package, from_ver, Some(to_ver), Some(to_ver2));
        dep.source_path = Some(string_from(project));
        let ghost old_rows = row_views(rows@);
        rows.push(dep);
        proof {
            assert(row_views(rows@) =~= old_rows.push(uv_row(project@, uv[i as int])));
            assert(uv.take(i + 1).map_values(|u: (Seq<char>, Seq<char>, Seq<char>)| uv_row(project@, u))
                =~= uv.take(i as int).map_values(|u: (Seq<char>, Seq<char>, Seq<char>)| uv_row(project@, u)).push(uv_row(project@, uv[i as int])));
        }
        i = i + 1;
    }
    proof {
        assert(uv.take(ups@.len() as int) =~= uv);
    }
    rows
}


/// The model of one probed project: its path and what capturing
/// `uv lock --upgrade --dry-run` gave (stdout followed by stderr, or error).
pub open spec fn uv_capture_view(p: (String, Result<crate::runner::Output, String>)) -> (Seq<char>, Result<Seq<char>, Seq<char>>) {
    (p.0@, match p.1 {
        Ok(o) => Ok(o.stdout@ + o.stderr@),
        Err(e) => Err(e@),
    })
}

/// The rows found across probed projects, or the first capture error.
pub open spec fn uv_probe_scan(ps: Seq<(Seq<char>, Result<Seq<char>, Seq<char>>)>) -> Result<Seq<DependencyRowView>, Seq<char>>
    decreases ps.len(),
{
    if ps.len() == 0 {
        Ok(seq![])
    } else {
        match uv_probe_scan(ps.drop_last()) {
            Err(e) => Err(e),
            Ok(rows) => match ps.last().1 {
                Err(e) => Err(e),
                Ok(text) => Ok(rows + uv_updates(lines(text)).map_values(
                    |u: (Seq<char>, Seq<char>, Seq<char>)| uv_row(ps.last().0, u),
                )),
            },
        }
    }
}

/// The outcome of probing Python projects: up to date when there are none,
/// failed when `uv` is missing or a dry run could not be captured, else the
/// updates of every project.
pub open spec fn uv_probe_spec(installed: bool, ps: Seq<(Seq<char>, Result<Seq<char>, Seq<char>>)>) -> crate::deps::probes::ProbeOutcomeView {
    if ps.len() == 0 {
        crate::deps::probes::up_to_date_spec()
    } else if !installed {
        crate::deps::probes::failed_spec("uv is not installed"@)
    } else {
        match uv_probe_scan(ps) {
            Err(e) => crate::deps::probes::failed_spec("uv lock failed: "@ + e),
            Ok(rows) => crate::deps::probes::outdated_spec(rows),
        }
    }
}

/// Probe Python dependencies from the dry-run result of each project.
pub fn probe(installed: bool, projects: &[(String, Result<crate::runner::Output, String>)]) -> (r:
    crate::deps::probes::ProbeOutcome)
    ensures
        r@ == uv_probe_spec(installed, projects@.map_values(|p: (String, Result<crate::runner::Output, String>)| uv_capture_view(p))),
{
    let ghost pv = projects@.map_values(|p: (String, Result<crate::runner::Output, String>)| uv_capture_view(p));
    if projects.len() == 0 {
        return crate::deps::probes::ProbeOutcome::up_to_date();
    }
    if !installed {
        return crate::deps::probes::ProbeOutcome::failed(string_from("uv is not installed"));
    }
    let mut rows: Vec<DependencyRow> = Vec::new();
    let mut i: usize = 0;
    assert(pv.take(0) =~= seq![]);
    assert(row_views(rows@) =~= seq![]);
    while i < projects.len()
        invariant
            pv == projects@.map_values(|p: (String, Result<crate::runner::Output, String>)| uv_capture_view(p)),
            i <= projects@.len(),
            installed,
            projects@.len() > 0,
            uv_probe_scan(pv.take(i as int)) == Ok::<Seq<DependencyRowView>, Seq<char>>(row_views(rows@)),
        decreases projects@.len() - i,
    {
        proof {
            assert(pv.take(i + 1).drop_last() =~= pv.take(i as int));
            assert(pv[i as int] == uv_capture_view(projects@[i as int]));
        }
        match &projects[i].1 {
            Err(e) => {
                let mut m = string_from("uv lock failed: ");
                crate::text::push_str(&mut m, e.as_str());
                proof {
                    assert(pv.take(i + 1).last() == pv[i as int]);
                    assert(uv_probe_scan(pv.take(i + 1)) == Err::<Seq<DependencyRowView>, Seq<char>>(e@));
                    lemma_scan_err_sticks(pv, i as int + 1, e@);
                }
                return crate::deps::probes::ProbeOutcome::failed(m);
            },
            Ok(o) => {
                let mut combined = string_from(o.stdout.as_str());
                crate::text::push_str(&mut combined, o.stderr.as_str());
                let mut found = uv_project_rows(projects[i].0.as_str(), combined.as_str());
                let ghost rv = row_views(rows@);
                let ghost fv = row_views(found@);
                rows.append(&mut found);
                proof {
                    assert(row_views(rows@) =~= rv + fv);
                }
            },
        }
        i = i + 1;
    }
    proof {
        assert(pv.take(projects@.len() as int) =~= pv);
    }
    crate::deps::probes::ProbeOutcome::outdated(rows)
}

/// Once a scan has failed, scanning more projects keeps that error.
proof fn lemma_scan_err_sticks(ps: Seq<(Seq<char>, Result<Seq<char>, Seq<char>>)>, k: int, e: Seq<char>)
    requires
        0 < k <= ps.len(),
        uv_probe_scan(ps.take(k)) == Err::<Seq<DependencyRowView>, Seq<char>>(e),
    ensures
        uv_probe_scan(ps) == Err::<Seq<DependencyRowView>, Seq<char>>(e),
    decreases ps.len() - k,
{
    if k == ps.len() {
        assert(ps.take(k) =~= ps);
    } else {
        assert(ps.take(k + 1).drop_last() =~= ps.take(k));
        lemma_scan_err_sticks(ps, k + 1, e);
    }
}

/// The uv projects to probe: the uv workspace root when there is one, else the
/// discovered Python project roots.
pub fn uv_projects(uv_root: Option<String>, project_roots: Vec<String>) -> (r: Vec<String>)
    ensures
        match uv_root {
            Some(root) => r@.len() == 1 && r@[0]@ == root@,
            None => r@ == project_roots@,
        },
{
    match uv_root {
        Some(root) => {
            let mut v: Vec<String> = Vec::new();
            v.push(root);
            v
        },
        None => project_roots,
    }
}

} // verus!
