//! `luna update` and `luna outdated`: what is announced, counted and returned.
use vstd::prelude::*;
use crate::deps::model::{
    ToolchainKind, ToolchainSnapshot, ToolchainState, PackageUpdateResult, PackageUpdateStatus, outdated_kinds,
    outdated_kinds_spec, toolchain_label,
};
use crate::num::decimal;
use crate::text::{views, join, join_strings, string_from, push_str};

verus! {

/// The number of package results with a given status.
pub open spec fn status_count(results: Seq<PackageUpdateResult>, status: PackageUpdateStatus) -> nat
    decreases results.len(),
{
    if results.len() == 0 {
        0
    } else {
        status_count(results.drop_last(), status) + if results.last().status == status {
            1nat
        } else {
            0nat
        }
    }
}

/// The number of package results with a given status.
pub fn count_results(results: &[PackageUpdateResult], status: PackageUpdateStatus) -> (r: usize)
    ensures
        r == status_count(results@, status),
{
    let mut n: usize = 0;
    let mut i: usize = 0;
    while i < results.len()
        invariant
            i <= results@.len(),
            n == status_count(results@.take(i as int), status),
            n <= i,
        decreases results@.len() - i,
    {
        proof {
            assert(results@.take(i + 1).drop_last() =~= results@.take(i as int));
        }
        if results[i].status == status {
            n = n + 1;
        }
        i = i + 1;
    }
    proof {
        assert(results@.take(results@.len() as int) =~= results@);
    }
    n
}

/// How many toolchains were not selected for update.
pub fn skipped_count(total: usize, selected: usize) -> (r: usize)
    ensures
        r == if total >= selected {
            (total - selected) as usize
        } else {
            0usize
        },
{
    total.saturating_sub(selected)
}

/// The exit code of `luna update`: 1 when an update failed or the workspace
/// re-sync did not succeed, 0 otherwise.
pub fn update_exit_code(had_failures: bool, setup_code: i32) -> (r: i32)
    ensures
        r == (if had_failures || setup_code != 0 {
            1i32
        } else {
            0i32
        }),
{
    if had_failures || setup_code != 0 {
        1
    } else {
        0
    }
}

/// The labels of a list of toolchains, joined with `, `.
pub open spec fn labels_text(kinds: Seq<ToolchainKind>) -> Seq<char> {
    join(kinds.map_values(|k: ToolchainKind| toolchain_label(k)), ", "@)
}

/// The labels of a list of toolchains, joined with `, `.
pub fn kinds_text(kinds: &[ToolchainKind]) -> (r: String)
    ensures
        r@ == labels_text(kinds@),
{
    let mut names: Vec<String> = Vec::new();
    let mut i: usize = 0;
    while i < kinds.len()
        invariant
            i <= kinds@.len(),
            views(names@) == kinds@.take(i as int).map_values(|k: ToolchainKind| toolchain_label(k)),
        decreases kinds@.len() - i,
    {
        let ghost before = views(names@);
        names.push(string_from(kinds[i].label()));
        proof {
            assert(views(names@) =~= before.push(toolchain_label(kinds@[i as int])));
            assert(kinds@.take(i + 1).map_values(|k: ToolchainKind| toolchain_label(k)) =~= kinds@.take(
                i as int,
            ).map_values(|k: ToolchainKind| toolchain_label(k)).push(toolchain_label(kinds@[i as int])));
        }
        i = i + 1;
    }
    proof {
        assert(kinds@.take(kinds@.len() as int) =~= kinds@);
    }
    join_strings(&names, ", ")
}

/// The message announcing which toolchains are updated.
pub fn updating_message(selected: &[ToolchainKind]) -> (r: String)
    ensures
        r@ == "\nUpdating outdated toolchains: "@ + labels_text(selected@),
{
    let mut r = string_from("\nUpdating outdated toolchains: ");
    let t = kinds_text(selected);
    push_str(&mut r, t.as_str());
    r
}

/// The message announcing a reused snapshot: its age in whole minutes and the
/// toolchains it reports as outdated (`none` when there are none).
pub open spec fn reuse_message_spec(age_secs: u64, snapshots: Seq<ToolchainSnapshot>) -> Seq<char> {
    let kinds = outdated_kinds_spec(snapshots);
    "Recent snapshot found ("@ + decimal((age_secs / 60) as nat) + "m ago). Updating outdated toolchains: "@ + (if kinds.len()
        == 0 {
        "none"@
    } else {
        labels_text(kinds)
    }) + "\n"@
}

/// The message announcing a reused snapshot.
pub fn reuse_message(age_secs: u64, snapshots: &[ToolchainSnapshot]) -> (r: String)
    ensures
        r@ == reuse_message_spec(age_secs, snapshots@),
{
    let kinds = outdated_kinds(snapshots);
    let mut r = string_from("Recent snapshot found (");
    crate::num::push_decimal(&mut r, age_secs / 60);
    push_str(&mut r, "m ago). Updating outdated toolchains: ");
    if kinds.len() == 0 {
        push_str(&mut r, "none");
    } else {
        let t = kinds_text(kinds.as_slice());
        push_str(&mut r, t.as_str());
    }
    push_str(&mut r, "\n");
    r
}

/// The failure notices of `luna outdated`: for each failed toolchain, its label
/// and its first diagnostic (`check failed` when it has none).
pub open spec fn failure_notices_spec(snapshots: Seq<ToolchainSnapshot>) -> Seq<(Seq<char>, Seq<char>)>
    decreases snapshots.len(),
{
    if snapshots.len() == 0 {
        seq![]
    } else {
        let s = snapshots.last();
        failure_notices_spec(snapshots.drop_last()) + if s.state == ToolchainState::Failed {
            seq![(s.label@, if s.diagnostics@.len() > 0 { s.diagnostics@[0]@ } else { "check failed"@ })]
        } else {
            seq![]
        }
    }
}

/// The failure notices of `luna outdated`.
pub fn failure_notices(snapshots: &[ToolchainSnapshot]) -> (r: Vec<(String, String)>)
    ensures
        r@.map_values(|p: (String, String)| (p.0@, p.1@)) == failure_notices_spec(snapshots@),
{
    let mut out: Vec<(String, String)> = Vec::new();
    let mut i: usize = 0;
    while i < snapshots.len()
        invariant
            i <= snapshots@.len(),
            out@.map_values(|p: (String, String)| (p.0@, p.1@)) == failure_notices_spec(snapshots@.take(i as int)),
        decreases snapshots@.len() - i,
    {
        proof {
            assert(snapshots@.take(i + 1).drop_last() =~= snapshots@.take(i as int));
        }
        let ghost before = out@.map_values(|p: (String, String)| (p.0@, p.1@));
        if snapshots[i].state == ToolchainState::Failed {
            let detail = if snapshots[i].diagnostics.len() > 0 {
                snapshots[i].diagnostics[0].clone()
            } else {
                string_from("check failed")
            };
            let pair = (snapshots[i].label.clone(), detail);
            out.push(pair);
            assert(out@.map_values(|p: (String, String)| (p.0@, p.1@)) =~= before.push((pair.0@, pair.1@)));
        }
        proof {
            assert(out@.map_values(|p: (String, String)| (p.0@, p.1@)) =~= failure_notices_spec(snapshots@.take(i + 1)));
        }
        i = i + 1;
    }
    proof {
        assert(snapshots@.take(snapshots@.len() as int) =~= snapshots@);
    }
    out
}

} // verus!
