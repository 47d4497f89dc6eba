//! Schema-versioned reports printed as JSON.
use vstd::prelude::*;
use crate::deps::model::{
    ToolchainSnapshot, SnapshotView, PackageUpdateResult, has_updates_spec, snapshot_views, duplicate_snapshots,
    any_has_updates, opt_view,
};
use crate::diagnostics::InventoryItem;
use crate::planner::Plan;
use crate::text::string_from;

verus! {

/// Version of the JSON report schema.
pub const SCHEMA_VERSION: &'static str = "v1";

/// The `luna outdated --json` report.
pub struct OutdatedReport {
    pub schema_version: String,
    pub workspace_root: String,
    pub snapshot_path: String,
    pub toolchains: Vec<ToolchainSnapshot>,
    pub has_outdated: bool,
}

impl OutdatedReport {
    /// The report for a set of snapshots: it has outdated dependencies when any
    /// snapshot has updates.
    pub fn from_snapshots(root: &str, snapshots: &[ToolchainSnapshot], snapshot_rel: &str) -> (r: Self)
        ensures
            r.schema_version@ == SCHEMA_VERSION@,
            r.workspace_root@ == root@,
            r.snapshot_path@ == snapshot_rel@,
            snapshot_views(r.toolchains@) == snapshot_views(snapshots@),
            r.has_outdated == exists|i: int| 0 <= i < snapshots@.len() && #[trigger] has_updates_spec(snapshots@[i]),
    {
        OutdatedReport {
            schema_version: string_from(SCHEMA_VERSION),
            workspace_root: string_from(root),
            snapshot_path: string_from(snapshot_rel),
            has_outdated: any_has_updates(snapshots),
            toolchains: duplicate_snapshots(snapshots),
        }
    }
}

/// The `luna update --json` report.
pub struct UpdateReportJson {
    pub schema_version: String,
    pub workspace_root: String,
    pub updated: usize,
    pub blocked: usize,
    pub failed: usize,
    pub unchanged: usize,
    pub skipped: usize,
    pub setup_ok: bool,
    pub packages: Vec<PackageUpdateResult>,
}

/// The project graph report.
pub struct ProjectGraph {
    pub schema_version: String,
    pub workspace_root: String,
    pub projects: Vec<ProjectNode>,
}

/// One project of the graph.
pub struct ProjectNode {
    pub id: String,
    pub path: String,
}

/// The `luna plan --json` report: the plan with the schema version beside it.
pub struct PlanReport {
    pub schema_version: String,
    pub plan: Plan,
}

impl PlanReport {
    /// The report for a plan.
    pub fn new(plan: Plan) -> (r: Self)
        ensures
            r.schema_version@ == SCHEMA_VERSION@,
            r.plan@ == plan@,
    {
        PlanReport { schema_version: string_from(SCHEMA_VERSION), plan }
    }
}

/// One component of a software bill of materials.
pub struct Component {
    pub name: String,
    pub version: String,
    pub adapter: String,
    pub ecosystem: String,
    pub source_path: Option<String>,
}

impl From<InventoryItem> for Component {
    fn from(item: InventoryItem) -> (r: Self) {
        Component {
            name: item.name,
            version: item.version,
            adapter: item.adapter,
            ecosystem: item.ecosystem,
            source_path: item.source_path,
        }
    }
}

impl vstd::std_specs::convert::FromSpecImpl<InventoryItem> for Component {
    open spec fn obeys_from_spec() -> bool {
        true
    }

    open spec fn from_spec(item: InventoryItem) -> Component {
        Component {
            name: item.name,
            version: item.version,
            adapter: item.adapter,
            ecosystem: item.ecosystem,
            source_path: item.source_path,
        }
    }
}

/// The component for an inventory item: the same name, version, adapter,
/// ecosystem and source.
pub fn component_of(item: InventoryItem) -> (r: Component)
    ensures
        r.name@ == item.name@,
        r.version@ == item.version@,
        r.adapter@ == item.adapter@,
        r.ecosystem@ == item.ecosystem@,
        opt_view(r.source_path) == opt_view(item.source_path),
{
    Component::from(item)
}

/// The `luna sbom` report.
pub struct SbomReport {
    pub schema_version: String,
    pub workspace_root: String,
    pub format: String,
    pub components: Vec<Component>,
}

/// One stage of a CI run.
pub struct CiStageReport {
    pub name: String,
    pub exit_code: i32,
    pub elapsed_ms: u64,
}

/// The `luna ci --json` report.
pub struct CiReport {
    pub schema_version: String,
    pub workspace_root: String,
    pub passed: bool,
    pub stages: Vec<CiStageReport>,
}

/// The `luna apply --json` report.
pub struct ApplyReport {
    pub schema_version: String,
    pub target: String,
    pub fingerprint: String,
    pub applied: bool,
    pub exit_code: i32,
}

/// One adapter's entry in the lock ledger.
pub struct AdapterLedgerEntry {
    pub adapter: String,
    /// Whether the adapter's lock step succeeded.
    pub lock_ok: bool,
    /// The dependencies the adapter reported.
    pub items: Vec<InventoryItem>,
}

/// The `luna lock --json` report.
pub struct LockLedgerReport {
    pub schema_version: String,
    pub workspace_root: String,
    pub ledger_path: String,
    pub fingerprint: String,
    pub adapters: Vec<AdapterLedgerEntry>,
}

impl LockLedgerReport {
    /// The report for a ledger, given its entries and its fingerprint.
    pub fn from_ledger(root: &str, adapters: Vec<AdapterLedgerEntry>, fingerprint: &str, ledger_rel: &str) -> (r: Self)
        ensures
            r.schema_version@ == SCHEMA_VERSION@,
            r.workspace_root@ == root@,
            r.ledger_path@ == ledger_rel@,
            r.fingerprint@ == fingerprint@,
            r.adapters@ == adapters@,
    {
        LockLedgerReport {
            schema_version: string_from(SCHEMA_VERSION),
            workspace_root: string_from(root),
            ledger_path: string_from(ledger_rel),
            fingerprint: string_from(fingerprint),
            adapters,
        }
    }
}

/// The exit code of `luna lock`: 1 when an adapter's lock failed, else 0.
pub fn lock_exit_code(adapters: &[AdapterLedgerEntry]) -> (r: i32)
    ensures
        r == (if exists|i: int| 0 <= i < adapters@.len() && !(#[trigger] adapters@[i]).lock_ok {
            1i32
        } else {
            0i32
        }),
{
    let mut i: usize = 0;
    while i < adapters.len()
        invariant
            i <= adapters@.len(),
            forall|j: int| 0 <= j < i ==> (#[trigger] adapters@[j]).lock_ok,
        decreases adapters@.len() - i,
    {
        if !adapters[i].lock_ok {
            return 1;
        }
        i = i + 1;
    }
    0
}

/// Where the lock ledger is written, relative to the root: `<state dir>/lock-ledger.json`.
pub fn ledger_rel(config: &crate::config::LunaConfig) -> (r: String)
    ensures
        r@ == config.state.dir@ + "/lock-ledger.json"@,
{
    let mut r = string_from(config.state.dir.as_str());
    crate::text::push_str(&mut r, "/lock-ledger.json");
    r
}

} // verus!
