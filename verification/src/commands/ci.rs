//! `luna ci`: doctor, sync, check, build and test, stopping at the first
//! failing stage.
use vstd::prelude::*;
use crate::output::{CiReport, CiStageReport, SCHEMA_VERSION};
use crate::text::{views, string_from};

verus! {

/// The stages of `luna ci`, in order.
pub open spec fn ci_stages_spec() -> Seq<Seq<char>> {
    seq!["doctor"@, "sync"@, "check"@, "build"@, "test"@]
}

/// The stages of `luna ci`, in order.
pub fn ci_stages() -> (r: Vec<String>)
    ensures
        views(r@) == ci_stages_spec(),
{
    let r = crate::formats::strings(&["doctor", "sync", "check", "build", "test"]);
    assert(views(r@) =~= ci_stages_spec());
    r
}

/// Whether the run goes on after a stage exits with `code`.
pub fn ci_continues(code: i32) -> (r: bool)
    ensures
        r == (code == 0),
{
    code == 0
}

/// The overall exit code of the stages run: that of the last stage when it
/// failed (the run stops there), else 0.
pub open spec fn ci_overall_spec(codes: Seq<i32>) -> i32 {
    if codes.len() > 0 && codes.last() != 0 {
        codes.last()
    } else {
        0
    }
}

/// The CI report of the stages run.
pub fn ci_report(root: &str, stages: Vec<CiStageReport>) -> (r: (CiReport, i32))
    ensures
        r.1 == ci_overall_spec(stages@.map_values(|s: CiStageReport| s.exit_code)),
        r.0.passed == (r.1 == 0),
        r.0.schema_version@ == SCHEMA_VERSION@,
        r.0.workspace_root@ == root@,
        r.0.stages@ == stages@,
{
    let ghost codes = stages@.map_values(|s: CiStageReport| s.exit_code);
    let overall = if stages.len() > 0 && stages[stages.len() - 1].exit_code != 0 {
        stages[stages.len() - 1].exit_code
    } else {
        0
    };
    let report = CiReport {
        schema_version: string_from(SCHEMA_VERSION),
        workspace_root: string_from(root),
        passed: overall == 0,
        stages,
    };
    (report, overall)
}

} // verus!
