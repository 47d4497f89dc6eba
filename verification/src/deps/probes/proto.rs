//! proto: the pins reported by `proto outdated --json`.
use vstd::prelude::*;
use crate::deps::model::{DependencyRow, DependencyRowView, ToolchainKind, outdated_row, row_views};
use crate::deps::probes::cargo::scalar_text;
use crate::formats::{JsonScalar, JsonScalarView, json_object_fields, json_object_fields_of, scalars_view, fields_view, strings};
use crate::text::{trim, trim_str, string_of, string_from, views};

verus! {

/// The trimmed, non-empty string content of an optional JSON scalar.
pub open spec fn field_text(o: Option<JsonScalarView>) -> Option<Seq<char>> {
    match scalar_text(o) {
        Some(s) => if trim(s).len() > 0 { Some(trim(s)) } else { None },
        None => None,
    }
}

/// The row for one `proto outdated` entry (`is_outdated`, `current`, `newest`,
/// `latest` fields), if the pin is outdated; a missing current version reads `—`.
pub open spec fn proto_entry_row(tool: Seq<char>, fields: Seq<Option<JsonScalarView>>) -> Option<DependencyRowView> {
    let is_outdated = match fields[0] {
        Some(s) => match s.flag {
            Some(b) => b,
            None => false,
        },
        None => false,
    };
    if !is_outdated {
        None
    } else {
        let current = match field_text(fields[1]) {
            Some(c) => c,
            None => "—"@,
        };
        Some(outdated_row(ToolchainKind::Proto, tool, current, field_text(fields[2]), field_text(fields[3])))
    }
}

/// The rows for a list of `proto outdated` entries, in order.
pub open spec fn proto_rows(entries: Seq<(Seq<char>, Seq<Option<JsonScalarView>>)>) -> Seq<DependencyRowView>
    decreases entries.len(),
{
    if entries.len() == 0 {
        seq![]
    } else {
        proto_rows(entries.drop_last()) + match proto_entry_row(entries.last().0, entries.last().1) {
            Some(r) => seq![r],
            None => seq![],
        }
    }
}

/// The keys read from each `proto outdated` entry.
pub open spec fn proto_keys() -> Seq<Seq<char>> {
    seq!["is_outdated"@, "current"@, "newest"@, "latest"@]
}

/// What `parse_proto_outdated` yields for a JSON text.
pub open spec fn parse_proto_outdated_spec(json: Seq<char>) -> Option<Seq<DependencyRowView>> {
    match json_object_fields_of(trim(json), proto_keys()) {
        Some(entries) => Some(proto_rows(entries)),
        None => None,
    }
}

fn field(o: &Option<JsonScalar>) -> (r: Option<String>)
    ensures
        match r {
            Some(s) => field_text(crate::formats::opt_scalar_view(*o)) == Some(s@),
            None => field_text(crate::formats::opt_scalar_view(*o)) is None,
        },
{
    match o {
        Some(s) => match &s.text {
            Some(v) => {
                let t = trim_str(v.as_str());
                if t.len() > 0 {
                    Some(string_of(t.as_slice()))
                } else {
                    None
                }
            },
            None => None,
        },
        None => None,
    }
}

fn proto_entry_row_exec(tool: &String, fields: &Vec<Option<JsonScalar>>) -> (r: Option<DependencyRow>)
    requires
        fields@.len() == 4,
    ensures
        match r {
            Some(row) => proto_entry_row(tool@, scalars_view(fields@)) == Some(row@),
            None => proto_entry_row(tool@, scalars_view(fields@)) is None,
        },
{
    let ghost fv = scalars_view(fields@);
    assert(fv[0] == crate::formats::opt_scalar_view(fields@[0]));
    assert(fv[1] == crate::formats::opt_scalar_view(fields@[1]));
    assert(fv[2] == crate::formats::opt_scalar_view(fields@[2]));
    assert(fv[3] == crate::formats::opt_scalar_view(fields@[3]));
    let is_outdated = match &fields[0] {
        Some(s) => match s.flag {
            Some(b) => b,
            None => false,
        },
        None => false,
    };
    if !is_outdated {
        return None;
    }
    let current = match field(&fields[1]) {
        Some(c) => c,
        None => string_from("—"),
    };
    Some(DependencyRow::outdated(ToolchainKind::Proto, tool.clone(), current, field(&fields[2]), field(&fields[3])))
}

/// The outdated rows for parsed `proto outdated` entries, each a tool with its
/// `is_outdated`, `current`, `newest` and `latest` fields: one row per outdated
/// tool, in order.
pub fn proto_rows_from(entries: &Vec<(String, Vec<Option<JsonScalar>>)>) -> (r: Vec<DependencyRow>)
    requires
        forall|k: int| 0 <= k < entries@.len() ==> (#[trigger] entries@[k]).1@.len() == 4,
    ensures
        row_views(r@) == proto_rows(fields_view(entries@)),
{
    let ghost ev = fields_view(entries@);
    let mut rows: Vec<DependencyRow> = Vec::new();
    let mut i: usize = 0;
    while i < entries.len()
        invariant
            ev == fields_view(entries@),
            forall|k: int| 0 <= k < entries@.len() ==> (#[trigger] entries@[k]).1@.len() == 4,
            i <= entries@.len(),
            row_views(rows@) == proto_rows(ev.take(i as int)),
        decreases entries@.len() - i,
    {
        proof {
            assert(ev.take(i + 1).drop_last() =~= ev.take(i as int));
            assert(ev[i as int] == (entries@[i as int].0@, scalars_view(entries@[i as int].1@)));
        }
        match proto_entry_row_exec(&entries[i].0, &entries[i].1) {
            Some(row) => {
                rows.push(row);
            },
            None => {},
        }
        proof {
            assert(row_views(rows@) =~= proto_rows(ev.take(i + 1)));
        }
        i = i + 1;
    }
    proof {
        assert(ev.take(entries@.len() as int) =~= ev);
    }
    rows
}

/// Parse the `proto outdated --json` object into outdated rows.
pub fn parse_proto_outdated(json: &str) -> (r: Option<Vec<DependencyRow>>)
    ensures
        match r {
            Some(rows) => parse_proto_outdated_spec(json@) == Some(row_views(rows@)),
            None => parse_proto_outdated_spec(json@) is None,
        },
{
    let t = string_of(trim_str(json).as_slice());
    let keys = strings(&["is_outdated", "current", "newest", "latest"]);
    proof {
        assert(views(keys@) =~= proto_keys());
    }
    match json_object_fields(t.as_str(), &keys) {
        Some(entries) => Some(proto_rows_from(&entries)),
        None => None,
    }
}

/// The probe outcome for the output of `proto outdated --json`.
pub open spec fn proto_outcome_spec(stdout: Seq<char>) -> crate::deps::probes::ProbeOutcomeView {
    match parse_proto_outdated_spec(stdout) {
        Some(rows) => crate::deps::probes::outdated_spec(rows),
        None => crate::deps::probes::failed_spec("could not parse `proto outdated --json`"@),
    }
}

/// Turn the output of `proto outdated --json` into a probe outcome.
pub fn proto_outcome(stdout: &str) -> (r: crate::deps::probes::ProbeOutcome)
    ensures
        r@ == proto_outcome_spec(stdout@),
{
    match parse_proto_outdated(stdout) {
        Some(rows) => crate::deps::probes::ProbeOutcome::outdated(rows),
        None => crate::deps::probes::ProbeOutcome::failed(string_from("could not parse `proto outdated --json`")),
    }
}


/// The outcome of probing proto, given whether `proto` is installed and what
/// capturing `proto outdated --json` gave (its stdout, or the error text).
pub open spec fn proto_probe_spec(installed: bool, capture: Result<Seq<char>, Seq<char>>) -> crate::deps::probes::ProbeOutcomeView {
    if !installed {
        crate::deps::probes::failed_spec("proto is not installed"@)
    } else {
        match capture {
            Err(e) => crate::deps::probes::failed_spec("proto outdated failed: "@ + e),
            Ok(out) => proto_outcome_spec(out),
        }
    }
}

/// Probe `.prototools` pins from the result of `proto outdated --json`.
pub fn probe(installed: bool, capture: &Result<crate::runner::Output, String>) -> (r: crate::deps::probes::ProbeOutcome)
    ensures
        r@ == proto_probe_spec(
            installed,
            match capture {
                Ok(o) => Ok(o.stdout@),
                Err(e) => Err(e@),
            },
        ),
{
    if !installed {
        return crate::deps::probes::ProbeOutcome::failed(string_from("proto is not installed"));
    }
    match capture {
        Err(e) => {
            let mut m = string_from("proto outdated failed: ");
            crate::text::push_str(&mut m, e.as_str());
            crate::deps::probes::ProbeOutcome::failed(m)
        },
        Ok(o) => proto_outcome(o.stdout.as_str()),
    }
}

} // verus!
