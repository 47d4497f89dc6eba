//! Cargo: the dependencies reported by `cargo outdated --format json`.
use vstd::prelude::*;
use crate::deps::model::{DependencyRow, DependencyRowView, ToolchainKind, outdated_row, row_views};
use crate::deps::probes::{ProbeOutcome, ProbeOutcomeView, outdated_spec, failed_spec};
use crate::formats::{JsonScalar, JsonScalarView, json_array_fields, json_array_fields_of, scalars_view, strings};
use crate::text::{trim, trim_chars, trim_str, chars_eq, chars_eq_str, string_of, string_from, push_str, push_chars, views};

verus! {

/// The string content of an optional JSON scalar.
pub open spec fn scalar_text(o: Option<JsonScalarView>) -> Option<Seq<char>> {
    match o {
        Some(s) => s.text,
        None => None,
    }
}

/// A `cargo outdated` cell with `---`, `Removed` and blanks read as absent.
pub open spec fn clean_cell(value: Option<Seq<char>>) -> Option<Seq<char>> {
    match value {
        Some(v) => {
            let t = trim(v);
            if t.len() == 0 || t == "---"@ || t == "Removed"@ {
                None
            } else {
                Some(t)
            }
        },
        None => None,
    }
}

/// The row for one `cargo outdated` dependency (`name`, `project`, `compat`
/// fields): only named dependencies whose compatible version differs from the
/// project's one.
pub open spec fn cargo_entry_row(fields: Seq<Option<JsonScalarView>>) -> Option<DependencyRowView> {
    let name = match scalar_text(fields[0]) {
        Some(n) => n,
        None => seq![],
    };
    let current = clean_cell(scalar_text(fields[1]));
    let compat = clean_cell(scalar_text(fields[2]));
    if name.len() == 0 {
        None
    } else {
        match current {
            None => None,
            Some(c) => match compat {
                Some(n) => if n != c {
                    Some(outdated_row(ToolchainKind::Rust, name, c, Some(n), None))
                } else {
                    None
                },
                None => None,
            },
        }
    }
}

/// The rows for a list of `cargo outdated` dependencies, in order.
pub open spec fn cargo_rows(entries: Seq<Seq<Option<JsonScalarView>>>) -> Seq<DependencyRowView>
    decreases entries.len(),
{
    if entries.len() == 0 {
        seq![]
    } else {
        cargo_rows(entries.drop_last()) + match cargo_entry_row(entries.last()) {
            Some(r) => seq![r],
            None => seq![],
        }
    }
}

/// The keys read from each `cargo outdated` dependency.
pub open spec fn cargo_keys() -> Seq<Seq<char>> {
    seq!["name"@, "project"@, "compat"@]
}

/// What `parse_cargo_outdated` yields for a JSON text.
pub open spec fn parse_cargo_outdated_spec(json: Seq<char>) -> Option<Seq<DependencyRowView>> {
    match json_array_fields_of(trim(json), "dependencies"@, cargo_keys()) {
        Some(entries) => Some(cargo_rows(entries)),
        None => None,
    }
}

/// Normalize cargo-outdated cell values (`---`, `Removed`, empty → None).
fn clean(value: &Option<JsonScalar>) -> (r: Option<String>)
    ensures
        match r {
            Some(s) => clean_cell(scalar_text(crate::formats::opt_scalar_view(*value))) == Some(s@),
            None => clean_cell(scalar_text(crate::formats::opt_scalar_view(*value))) is None,
        },
{
    match value {
        Some(s) => match &s.text {
            Some(v) => {
                let t = trim_str(v.as_str());
                if t.len() == 0 || chars_eq_str(t.as_slice(), "---") || chars_eq_str(t.as_slice(), "Removed") {
                    None
                } else {
                    Some(string_of(t.as_slice()))
                }
            },
            None => None,
        },
        None => None,
    }
}

fn cargo_entry_row_exec(fields: &Vec<Option<JsonScalar>>) -> (r: Option<DependencyRow>)
    requires
        fields@.len() == 3,
    ensures
        match r {
            Some(row) => cargo_entry_row(scalars_view(fields@)) == Some(row@),
            None => cargo_entry_row(scalars_view(fields@)) is None,
        },
{
    let ghost fv = scalars_view(fields@);
    assert(fv[0] == crate::formats::opt_scalar_view(fields@[0]));
    assert(fv[1] == crate::formats::opt_scalar_view(fields@[1]));
    assert(fv[2] == crate::formats::opt_scalar_view(fields@[2]));
    let name = match &fields[0] {
        Some(s) => match &s.text {
            Some(n) => n.clone(),
            None => String::new(),
        },
        None => String::new(),
    };
    let current = clean(&fields[1]);
    let compat = clean(&fields[2]);
    if crate::text::chars_of(name.as_str()).len() == 0 {
        return None;
    }
    match current {
        None => None,
        Some(c) => match compat {
            Some(n) => {
                if !crate::text::str_eq(n.as_str(), c.as_str()) {
                    Some(DependencyRow::outdated(ToolchainKind::Rust, name, c, Some(n), None))
                } else {
                    None
                }
            },
            None => None,
        },
    }
}

/// The outdated rows for parsed `cargo outdated` dependencies, each given by its
/// `name`, `project` and `compat` fields: one row per dependency whose in-range
/// version differs from the current one, in order.
pub fn cargo_rows_from(entries: &Vec<Vec<Option<JsonScalar>>>) -> (r: Vec<DependencyRow>)
    requires
        forall|k: int| 0 <= k < entries@.len() ==> (#[trigger] entries@[k])@.len() == 3,
    ensures
        row_views(r@) == cargo_rows(crate::formats::entries_view(entries@)),
{
    let ghost ev = crate::formats::entries_view(entries@);
    let mut rows: Vec<DependencyRow> = Vec::new();
    let mut i: usize = 0;
    while i < entries.len()
        invariant
            ev == crate::formats::entries_view(entries@),
            forall|k: int| 0 <= k < entries@.len() ==> (#[trigger] entries@[k])@.len() == 3,
            i <= entries@.len(),
            row_views(rows@) == cargo_rows(ev.take(i as int)),
        decreases entries@.len() - i,
    {
        proof {
            assert(ev.take(i + 1).drop_last() =~= ev.take(i as int));
            assert(ev[i as int] == scalars_view(entries@[i as int]@));
        }
        match cargo_entry_row_exec(&entries[i]) {
            Some(row) => {
                rows.push(row);
            },
            None => {},
        }
        proof {
            assert(row_views(rows@) =~= cargo_rows(ev.take(i + 1)));
        }
        i = i + 1;
    }
    proof {
        assert(ev.take(entries@.len() as int) =~= ev);
    }
    rows
}

/// Parse `cargo outdated --format json` dependencies into outdated rows.
pub fn parse_cargo_outdated(json: &str) -> (r: Option<Vec<DependencyRow>>)
    ensures
        match r {
            Some(rows) => parse_cargo_outdated_spec(json@) == Some(row_views(rows@)),
            None => parse_cargo_outdated_spec(json@) is None,
        },
{
    let t = string_of(trim_str(json).as_slice());
    let keys = strings(&["name", "project", "compat"]);
    proof {
        assert(views(keys@) =~= cargo_keys());
    }
    match json_array_fields(t.as_str(), "dependencies", &keys) {
        Some(entries) => {
            assert(entries@.map_values(|e: Vec<Option<JsonScalar>>| scalars_view(e@)) =~= crate::formats::entries_view(entries@));
            Some(cargo_rows_from(&entries))
        },
        None => None,
    }
}

/// The probe outcome for a finished `cargo outdated --format json` (which exits
/// 1 when upgrades exist; both 0 and 1 carry valid JSON).
pub open spec fn cargo_outcome_spec(code: i32, stdout: Seq<char>, stderr: Seq<char>) -> ProbeOutcomeView {
    if code != 0 && code != 1 {
        failed_spec("`cargo outdated` failed (exit "@ + crate::num::int_text(code as int) + "): "@ + trim(stderr))
    } else {
        match parse_cargo_outdated_spec(stdout) {
            Some(rows) => {
                let o = outdated_spec(rows);
                ProbeOutcomeView { diagnostics: o.diagnostics.push("Latest column omitted for Cargo in v1 (OQ-1)"@), ..o }
            },
            None => failed_spec("could not parse `cargo outdated --format json`"@),
        }
    }
}

/// Turn a finished `cargo outdated --format json` run into a probe outcome; the
/// `Latest` column is omitted for Cargo, only the in-range `Compat` target
/// populates `Newest`.
pub fn cargo_outcome(code: i32, stdout: &str, stderr: &str) -> (r: ProbeOutcome)
    ensures
        r@ == cargo_outcome_spec(code, stdout@, stderr@),
{
    if code != 0 && code != 1 {
        let mut msg = string_from("`cargo outdated` failed (exit ");
        crate::num::push_i32(&mut msg, code);
        push_str(&mut msg, "): ");
        let t = trim_str(stderr);
        push_chars(&mut msg, t.as_slice());
        return ProbeOutcome::failed(msg);
    }
    match parse_cargo_outdated(stdout) {
        Some(rows) => ProbeOutcome::outdated(rows).with_diagnostic(string_from("Latest column omitted for Cargo in v1 (OQ-1)")),
        None => ProbeOutcome::failed(string_from("could not parse `cargo outdated --format json`")),
    }
}


/// The outcome of probing Cargo: up to date without both `Cargo.toml` and
/// `Cargo.lock`; failed when `cargo` or `cargo-outdated` is missing or the
/// capture failed; else the outcome of the captured run.
pub open spec fn cargo_probe_spec(
    files: bool,
    installed: bool,
    outdated_tool: bool,
    capture: Result<(i32, Seq<char>, Seq<char>), Seq<char>>,
) -> ProbeOutcomeView {
    if !files {
        crate::deps::probes::up_to_date_spec()
    } else if !installed {
        failed_spec("cargo is not installed"@)
    } else if !outdated_tool {
        failed_spec("install `cargo-outdated` (`cargo install cargo-outdated`) to check Rust deps"@)
    } else {
        match capture {
            Err(e) => failed_spec("cargo outdated failed: "@ + e),
            Ok((code, out, err)) => cargo_outcome_spec(code, out, err),
        }
    }
}

/// Probe the Cargo workspace, given whether `Cargo.toml` and `Cargo.lock` both
/// exist, whether `cargo` and `cargo-outdated` are available, and what
/// capturing `cargo outdated --format json` gave.
pub fn probe(files: bool, installed: bool, outdated_tool: bool, capture: &Result<crate::runner::Output, String>) -> (r:
    ProbeOutcome)
    ensures
        r@ == cargo_probe_spec(
            files,
            installed,
            outdated_tool,
            match capture {
                Ok(o) => Ok((o.code, o.stdout@, o.stderr@)),
                Err(e) => Err(e@),
            },
        ),
{
    if !files {
        return ProbeOutcome::up_to_date();
    }
    if !installed {
        return ProbeOutcome::failed(string_from("cargo is not installed"));
    }
    if !outdated_tool {
        return ProbeOutcome::failed(
            string_from("install `cargo-outdated` (`cargo install cargo-outdated`) to check Rust deps"),
        );
    }
    match capture {
        Err(e) => {
            let mut m = string_from("cargo outdated failed: ");
            push_str(&mut m, e.as_str());
            ProbeOutcome::failed(m)
        },
        Ok(o) => cargo_outcome(o.code, o.stdout.as_str(), o.stderr.as_str()),
    }
}

} // verus!
