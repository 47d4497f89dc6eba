//! Bun: the `bun outdated --recursive` table and `minimum-release-age` errors.
use vstd::prelude::*;
use crate::deps::model::{DependencyRow, DependencyRowView, ToolchainKind, outdated_row, opt_view};
use crate::deps::probes::{ProbeOutcome, ProbeOutcomeView, outdated_spec, up_to_date_spec};
use crate::text::{
    is_ws, is_ws_char, trim, trim_chars, split, trimmed_nonempty, trimmed_pieces, starts_with, starts_with_str,
    contains, contains_str, find, find_exec, split_once, split_once_str, lines, lines_str, slice_chars,
    string_of, string_from, str_eq, chars_of, push_str, views,
};

verus! {

/// One row of the `bun outdated` table.
pub struct BunOutdatedRow {
    pub package: String,
    pub current: String,
    pub update: String,
    pub latest: String,
    pub latest_blocked_by_age: bool,
    pub workspace: Option<String>,
}

/// The model of a table row.
pub struct BunRowView {
    pub package: Seq<char>,
    pub current: Seq<char>,
    pub update: Seq<char>,
    pub latest: Seq<char>,
    pub latest_blocked_by_age: bool,
    pub workspace: Option<Seq<char>>,
}

impl View for BunOutdatedRow {
    type V = BunRowView;

    open spec fn view(&self) -> BunRowView {
        BunRowView {
            package: self.package@,
            current: self.current@,
            update: self.update@,
            latest: self.latest@,
            latest_blocked_by_age: self.latest_blocked_by_age,
            workspace: opt_view(self.workspace),
        }
    }
}

/// `s` without trailing `*` markers and whitespace.
pub open spec fn trim_end_star_ws(s: Seq<char>) -> Seq<char>
    decreases s.len(),
{
    if s.len() > 0 && (s.last() == '*' || is_ws(s.last())) {
        trim_end_star_ws(s.drop_last())
    } else {
        s
    }
}

/// The table row a line of `bun outdated` output describes, if any: a line
/// starting with `|` that is not the header or a rule, with at least four cells.
pub open spec fn bun_line_row(line: Seq<char>) -> Option<BunRowView> {
    let t = trim(line);
    let cells = trimmed_nonempty(split(t, '|'));
    if !starts_with(t, "|"@) || contains(t, "Package"@) || contains(t, "---"@) || cells.len() < 4 {
        None
    } else {
        Some(
            BunRowView {
                package: cells[0],
                current: cells[1],
                update: cells[2],
                latest: trim_end_star_ws(cells[3]),
                latest_blocked_by_age: contains(cells[3], "*"@),
                workspace: if cells.len() > 4 { Some(cells[4]) } else { None },
            },
        )
    }
}

/// The rows described by a list of lines, in order.
pub open spec fn bun_rows(lines: Seq<Seq<char>>) -> Seq<BunRowView>
    decreases lines.len(),
{
    if lines.len() == 0 {
        seq![]
    } else {
        bun_rows(lines.drop_last()) + match bun_line_row(lines.last()) {
            Some(r) => seq![r],
            None => seq![],
        }
    }
}

fn trim_end_star_ws_exec(s: &[char]) -> (r: Vec<char>)
    ensures
        r@ == trim_end_star_ws(s@),
{
    let mut hi: usize = s.len();
    proof {
        assert(s@.take(s@.len() as int) =~= s@);
    }
    while hi > 0 && (s[hi - 1] == '*' || is_ws_char(s[hi - 1]))
        invariant
            hi <= s@.len(),
            trim_end_star_ws(s@) == trim_end_star_ws(s@.take(hi as int)),
        decreases hi,
    {
        proof {
            assert(s@.take(hi as int).drop_last() =~= s@.take(hi - 1));
        }
        hi = hi - 1;
    }
    proof {
        assert(s@.subrange(0, hi as int) =~= s@.take(hi as int));
    }
    slice_chars(s, 0, hi)
}

fn bun_line_row_exec(line: &[char]) -> (r: Option<BunOutdatedRow>)
    ensures
        match r {
            Some(row) => bun_line_row(line@) == Some(row@),
            None => bun_line_row(line@) is None,
        },
{
    let t = trim_chars(line);
    if !starts_with_str(t.as_slice(), "|") {
        return None;
    }
    if contains_str(t.as_slice(), "Package") || contains_str(t.as_slice(), "---") {
        return None;
    }
    let cells = trimmed_pieces(t.as_slice(), '|');
    let ghost cv = cells@.map_values(|p: Vec<char>| p@);
    if cells.len() < 4 {
        return None;
    }
    assert(cells@[0]@ == cv[0] && cells@[1]@ == cv[1] && cells@[2]@ == cv[2] && cells@[3]@ == cv[3]);
    let workspace = if cells.len() > 4 {
        assert(cells@[4]@ == cv[4]);
        Some(string_of(cells[4].as_slice()))
    } else {
        None
    };
    let latest = trim_end_star_ws_exec(cells[3].as_slice());
    Some(
        BunOutdatedRow {
            package: string_of(cells[0].as_slice()),
            current: string_of(cells[1].as_slice()),
            update: string_of(cells[2].as_slice()),
            latest: string_of(latest.as_slice()),
            latest_blocked_by_age: contains_str(cells[3].as_slice(), "*"),
            workspace,
        },
    )
}

/// Parse the `bun outdated` table into rows.
pub fn parse_bun_outdated_table(stdout: &str) -> (r: Vec<BunOutdatedRow>)
    ensures
        r@.map_values(|x: BunOutdatedRow| x@) == bun_rows(lines(stdout@)),
{
    let ls = lines_str(stdout);
    let ghost lv = ls@.map_values(|p: Vec<char>| p@);
    let mut rows: Vec<BunOutdatedRow> = Vec::new();
    let mut i: usize = 0;
    while i < ls.len()
        invariant
            lv == lines(stdout@),
            ls@.map_values(|p: Vec<char>| p@) == lv,
            i <= ls@.len(),
            rows@.map_values(|x: BunOutdatedRow| x@) == bun_rows(lv.take(i as int)),
        decreases ls@.len() - i,
    {
        proof {
            assert(lv.take(i + 1).drop_last() =~= lv.take(i as int));
            assert(ls@[i as int]@ == lv[i as int]);
        }
        let ghost old_rows = rows@.map_values(|x: BunOutdatedRow| x@);
        match bun_line_row_exec(ls[i].as_slice()) {
            Some(row) => {
                rows.push(row);
            },
            None => {},
        }
        proof {
            assert(rows@.map_values(|x: BunOutdatedRow| x@) =~= bun_rows(lv.take(i + 1)));
        }
        i = i + 1;
    }
    proof {
        assert(lv.take(ls@.len() as int) =~= lv);
    }
    rows
}

/// The dependency row for a `bun outdated` table row: `Newest` is the in-range
/// update when it differs from the current version, `Latest` when present.
pub open spec fn bun_dependency(row: BunRowView) -> DependencyRowView {
    let base = outdated_row(
        ToolchainKind::Bun,
        row.package,
        row.current,
        if row.update != row.current { Some(row.update) } else { None },
        if row.latest.len() > 0 { Some(row.latest) } else { None },
    );
    DependencyRowView {
        workspaces: match row.workspace {
            Some(ws) => if ws.len() > 0 { seq![ws] } else { seq![] },
            None => seq![],
        },
        blocked_reason: if row.latest_blocked_by_age { Some("minimum-release-age"@) } else { None },
        ..base
    }
}

/// Map one table row to a dependency row.
pub fn bun_row_to_dependency(row: BunOutdatedRow) -> (r: DependencyRow)
    ensures
        r@ == bun_dependency(row@),
{
    let newest = if !str_eq(row.update.as_str(), row.current.as_str()) {
        Some(row.update.clone())
    } else {
        None
    };
    let latest = if chars_of(row.latest.as_str()).len() > 0 {
        Some(row.latest.clone())
    } else {
        None
    };
    let blocked = row.latest_blocked_by_age;
    let workspace = row.workspace;
    let mut dep = DependencyRow::outdated(ToolchainKind::Bun, row.package, row.current, newest, latest);
    match workspace {
        Some(ws) => {
            if chars_of(ws.as_str()).len() > 0 {
                let mut v: Vec<String> = Vec::new();
                v.push(ws);
                dep.workspaces = v;
                assert(views(dep.workspaces@) =~= seq![dep.workspaces@[0]@]);
            }
        },
        None => {},
    }
    if blocked {
        dep.blocked_reason = Some(string_from("minimum-release-age"));
    }
    dep
}

// ---------------------------------------------------------------------------
// minimum-release-age errors
// ---------------------------------------------------------------------------

/// The text between `prefix` and the next `"` in `line`, if both occur.
pub open spec fn quoted_field(line: Seq<char>, prefix: Seq<char>) -> Option<Seq<char>> {
    match split_once(line, prefix) {
        Some((_, rest)) => {
            let end = find(rest, "\""@);
            if end < 0 { None } else { Some(rest.take(end)) }
        },
        None => None,
    }
}

/// The blocked package and specifier a line reports, if it is a
/// minimum-release-age resolution error.
pub open spec fn blocked_entry(line: Seq<char>) -> Option<(Seq<char>, Seq<char>)> {
    if !contains(line, "No version matching"@) || !contains(line, "blocked by minimum-release-age"@) {
        None
    } else {
        match (quoted_field(line, "No version matching \""@), quoted_field(line, "found for specifier \""@)) {
            (Some(p), Some(s)) => Some((p, s)),
            _ => None,
        }
    }
}

/// The blocked (package, specifier) pairs of a list of lines: the first
/// specifier reported for each package, in order of first report.
pub open spec fn blocked_entries(lines: Seq<Seq<char>>) -> Seq<(Seq<char>, Seq<char>)>
    decreases lines.len(),
{
    if lines.len() == 0 {
        seq![]
    } else {
        let prev = blocked_entries(lines.drop_last());
        match blocked_entry(lines.last()) {
            Some(e) => if exists|j: int| 0 <= j < prev.len() && (#[trigger] prev[j]).0 == e.0 {
                prev
            } else {
                prev.push(e)
            },
            None => prev,
        }
    }
}

/// The text between `prefix` and the next `"` in `line`.
pub fn extract_quoted_field(line: &[char], prefix: &str) -> (r: Option<String>)
    ensures
        match r {
            Some(s) => quoted_field(line@, prefix@) == Some(s@),
            None => quoted_field(line@, prefix@) is None,
        },
{
    match split_once_str(line, prefix) {
        Some((_, rest)) => {
            let q = chars_of("\"");
            match find_exec(rest.as_slice(), q.as_slice()) {
                Some(end) => {
                    proof {
                        crate::text::lemma_find_in_range(rest@, q@);
                    }
                    let f = slice_chars(rest.as_slice(), 0, end);
                    assert(f@ =~= rest@.take(end as int));
                    Some(string_of(f.as_slice()))
                },
                None => None,
            }
        },
        None => None,
    }
}

fn blocked_entry_exec(line: &[char]) -> (r: Option<(String, String)>)
    ensures
        match r {
            Some((p, s)) => blocked_entry(line@) == Some((p@, s@)),
            None => blocked_entry(line@) is None,
        },
{
    if !contains_str(line, "No version matching") || !contains_str(line, "blocked by minimum-release-age") {
        return None;
    }
    let pkg = match extract_quoted_field(line, "No version matching \"") {
        Some(p) => p,
        None => return None,
    };
    let spec = match extract_quoted_field(line, "found for specifier \"") {
        Some(s) => s,
        None => return None,
    };
    Some((pkg, spec))
}

/// Packages Bun could not resolve because of `minimum-release-age`.
pub fn parse_bun_blocked_errors(text: &str) -> (r: Vec<(String, String)>)
    ensures
        r@.map_values(|e: (String, String)| (e.0@, e.1@)) == blocked_entries(lines(text@)),
{
    let ls = lines_str(text);
    let ghost lv = ls@.map_values(|p: Vec<char>| p@);
    let mut out: Vec<(String, String)> = Vec::new();
    let mut i: usize = 0;
    while i < ls.len()
        invariant
            lv == lines(text@),
            ls@.map_values(|p: Vec<char>| p@) == lv,
            i <= ls@.len(),
            out@.map_values(|e: (String, String)| (e.0@, e.1@)) == blocked_entries(lv.take(i as int)),
        decreases ls@.len() - i,
    {
        proof {
            assert(lv.take(i + 1).drop_last() =~= lv.take(i as int));
            assert(ls@[i as int]@ == lv[i as int]);
        }
        let ghost prev = out@.map_values(|e: (String, String)| (e.0@, e.1@));
        match blocked_entry_exec(ls[i].as_slice()) {
            Some((pkg, spec)) => {
                let mut seen = false;
                let mut j: usize = 0;
                while j < out.len()
                    invariant
                        j <= out@.len(),
                        prev == out@.map_values(|e: (String, String)| (e.0@, e.1@)),
                        seen == exists|k: int| 0 <= k < j && (#[trigger] prev[k]).0 == pkg@,
                    decreases out@.len() - j,
                {
                    if out[j].0 == pkg {
                        seen = true;
                    }
                    proof {
                        assert(prev[j as int].0 == out@[j as int].0@);
                    }
                    j = j + 1;
                }
                if !seen {
                    out.push((pkg, spec));
                }
            },
            None => {},
        }
        proof {
            assert(out@.map_values(|e: (String, String)| (e.0@, e.1@)) =~= blocked_entries(lv.take(i + 1)));
        }
        i = i + 1;
    }
    proof {
        assert(lv.take(ls@.len() as int) =~= lv);
    }
    out
}

/// What `str::to_lowercase` returns for a string.
pub uninterp spec fn lowercase_of(s: Seq<char>) -> Seq<char>;

/// `str::to_lowercase` (Unicode lowercase mapping); the result is named, not stated.
#[verifier::external_body]
fn to_lowercase(s: &[char]) -> (r: Vec<char>)
    ensures
        r@ == lowercase_of(s@),
{
    s.iter().collect::<String>().to_lowercase().chars().collect()
}

/// A line that reports an error other than a release-age block.
pub open spec fn other_error_line(line: Seq<char>) -> bool {
    let lower = lowercase_of(line);
    contains(lower, "error:"@) && !contains(lower, "blocked by minimum-release-age"@) && !contains(
        lower,
        "no version matching"@,
    )
}

/// True when Bun failed only because of `minimum-release-age` blocks.
pub open spec fn bun_failure_is_age_only_spec(stdout: Seq<char>, stderr: Seq<char>) -> bool {
    let combined = stdout + stderr;
    blocked_entries(lines(combined)).len() > 0 && !(exists|i: int|
        0 <= i < lines(combined).len() && #[trigger] other_error_line(lines(combined)[i]))
}

/// True when Bun failed only because of `minimum-release-age` blocks (no other errors).
pub fn bun_failure_is_age_only(stdout: &str, stderr: &str) -> (r: bool)
    ensures
        r == bun_failure_is_age_only_spec(stdout@, stderr@),
{
    let mut combined = string_from(stdout);
    push_str(&mut combined, stderr);
    let blocked = parse_bun_blocked_errors(combined.as_str());
    if blocked.len() == 0 {
        return false;
    }
    let ls = lines_str(combined.as_str());
    let ghost lv = ls@.map_values(|p: Vec<char>| p@);
    let mut i: usize = 0;
    while i < ls.len()
        invariant
            lv == lines(combined@),
            combined@ == stdout@ + stderr@,
            blocked_entries(lines(combined@)).len() > 0,
            ls@.map_values(|p: Vec<char>| p@) == lv,
            i <= ls@.len(),
            forall|k: int| 0 <= k < i ==> !#[trigger] other_error_line(lv[k]),
        decreases ls@.len() - i,
    {
        assert(ls@[i as int]@ == lv[i as int]);
        let lower = to_lowercase(ls[i].as_slice());
        if contains_str(lower.as_slice(), "error:") && !contains_str(lower.as_slice(), "blocked by minimum-release-age")
            && !contains_str(lower.as_slice(), "no version matching") {
            assert(other_error_line(lv[i as int]));
            return false;
        }
        i = i + 1;
    }
    true
}

/// The probe outcome for the captured output of `bun outdated --recursive`.
pub open spec fn bun_outcome_spec(stdout: Seq<char>, stderr: Seq<char>) -> ProbeOutcomeView {
    let table = bun_rows(lines(stdout + stderr));
    if table.len() == 0 {
        up_to_date_spec()
    } else {
        outdated_spec(table.map_values(|r: BunRowView| bun_dependency(r)))
    }
}

/// Turn the captured output of `bun outdated --recursive` into a probe outcome.
pub fn bun_outcome(stdout: &str, stderr: &str) -> (r: ProbeOutcome)
    ensures
        r@ == bun_outcome_spec(stdout@, stderr@),
{
    let mut combined = string_from(stdout);
    push_str(&mut combined, stderr);
    let table = parse_bun_outdated_table(combined.as_str());
    let ghost tv = table@.map_values(|x: BunOutdatedRow| x@);
    if table.len() == 0 {
        return ProbeOutcome::up_to_date();
    }
    let mut rows: Vec<DependencyRow> = Vec::new();
    let mut table = table;
    let n = table.len();
    let mut rev: Vec<DependencyRow> = Vec::new();
    // Take rows from the back, then restore the input order.
    while table.len() > 0
        invariant
            table@.len() <= n,
            n == tv.len(),
            table@.map_values(|x: BunOutdatedRow| x@) == tv.take(table@.len() as int),
            rev@.len() == n - table@.len(),
            forall|k: int| 0 <= k < rev@.len() ==> (#[trigger] rev@[k])@ == bun_dependency(tv[n - 1 - k]),
        decreases table@.len(),
    {
        let ghost before = table@;
        let row = table.pop().unwrap();
        proof {
            assert(before.map_values(|x: BunOutdatedRow| x@)[before.len() - 1] == before[before.len() - 1]@);
            assert(tv.take(before.len() as int)[before.len() - 1] == tv[before.len() - 1]);
            assert(row@ == tv[before.len() - 1]);
            assert(table@.map_values(|x: BunOutdatedRow| x@) =~= tv.take(table@.len() as int));
        }
        rev.push(bun_row_to_dependency(row));
    }
    while rev.len() > 0
        invariant
            rev@.len() + rows@.len() == n,
            forall|k: int| 0 <= k < rev@.len() ==> (#[trigger] rev@[k])@ == bun_dependency(tv[n - 1 - k]),
            forall|k: int| 0 <= k < rows@.len() ==> (#[trigger] rows@[k])@ == bun_dependency(tv[k]),
        decreases rev@.len(),
    {
        let d = rev.pop().unwrap();
        rows.push(d);
    }
    proof {
        assert(crate::deps::model::row_views(rows@) =~= tv.map_values(|r: BunRowView| bun_dependency(r)));
    }
    ProbeOutcome::outdated(rows)
}


/// The outcome of probing Bun, given whether `bun` is installed and what
/// capturing `bun outdated --recursive` gave (its output, or the error text).
pub open spec fn bun_probe_spec(installed: bool, capture: Result<(Seq<char>, Seq<char>), Seq<char>>) -> ProbeOutcomeView {
    if !installed {
        crate::deps::probes::failed_spec("bun is not installed"@)
    } else {
        match capture {
            Err(e) => crate::deps::probes::failed_spec("bun outdated failed: "@ + e),
            Ok((out, err)) => bun_outcome_spec(out, err),
        }
    }
}

/// Probe Bun workspace dependencies from the result of `bun outdated --recursive`.
pub fn probe(installed: bool, capture: &Result<crate::runner::Output, String>) -> (r: ProbeOutcome)
    ensures
        r@ == bun_probe_spec(
            installed,
            match capture {
                Ok(o) => Ok((o.stdout@, o.stderr@)),
                Err(e) => Err(e@),
            },
        ),
{
    if !installed {
        return ProbeOutcome::failed(string_from("bun is not installed"));
    }
    match capture {
        Err(e) => {
            let mut m = string_from("bun outdated failed: ");
            push_str(&mut m, e.as_str());
            ProbeOutcome::failed(m)
        },
        Ok(o) => bun_outcome(o.stdout.as_str(), o.stderr.as_str()),
    }
}

} // verus!
