//! Dependency toolchains, their states, and the normalized dependency rows
//! shared by outdated and update reports.
use vstd::prelude::*;
use crate::text::{views, string_from};

verus! {

/// Dependency toolchain groups handled by the planner, in display order.
#[derive(Clone, Copy, PartialEq, Eq, Structural, Debug, Hash)]
pub enum ToolchainKind {
    Proto,
    Rust,
    Bun,
    Uv,
    Go,
}

/// Fixed report order: proto → rust → bun → uv → go.
pub open spec fn toolchain_order() -> Seq<ToolchainKind> {
    seq![ToolchainKind::Proto, ToolchainKind::Rust, ToolchainKind::Bun, ToolchainKind::Uv, ToolchainKind::Go]
}

/// Position of a toolchain in the report order.
pub open spec fn order_index(k: ToolchainKind) -> int {
    match k {
        ToolchainKind::Proto => 0,
        ToolchainKind::Rust => 1,
        ToolchainKind::Bun => 2,
        ToolchainKind::Uv => 3,
        ToolchainKind::Go => 4,
    }
}

/// User-facing label of a toolchain.
pub open spec fn toolchain_label(k: ToolchainKind) -> Seq<char> {
    match k {
        ToolchainKind::Proto => "proto"@,
        ToolchainKind::Rust => "rust"@,
        ToolchainKind::Bun => "bun"@,
        ToolchainKind::Uv => "uv"@,
        ToolchainKind::Go => "go"@,
    }
}

impl ToolchainKind {
    /// Fixed report order: proto → rust → bun → uv → go.
    pub fn order() -> (r: [ToolchainKind; 5])
        ensures
            r@ == toolchain_order(),
    {
        let r = [ToolchainKind::Proto, ToolchainKind::Rust, ToolchainKind::Bun, ToolchainKind::Uv, ToolchainKind::Go];
        assert(r@ =~= toolchain_order());
        r
    }

    /// User-facing label used in panels, divider rows, and banners.
    pub fn label(self) -> (r: &'static str)
        ensures
            r@ == toolchain_label(self),
    {
        match self {
            ToolchainKind::Proto => "proto",
            ToolchainKind::Rust => "rust",
            ToolchainKind::Bun => "bun",
            ToolchainKind::Uv => "uv",
            ToolchainKind::Go => "go",
        }
    }

    /// Position of this toolchain in the report order.
    pub fn position(self) -> (r: usize)
        ensures
            r as int == order_index(self),
            toolchain_order()[r as int] == self,
    {
        match self {
            ToolchainKind::Proto => 0,
            ToolchainKind::Rust => 1,
            ToolchainKind::Bun => 2,
            ToolchainKind::Uv => 3,
            ToolchainKind::Go => 4,
        }
    }
}

/// Lifecycle state of a toolchain group across probe and update phases.
#[derive(Clone, Copy, PartialEq, Eq, Structural, Debug)]
pub enum ToolchainState {
    Queued,
    Running,
    UpToDate,
    Outdated,
    Blocked,
    Failed,
    Skipped,
}

/// One normalized dependency row shared by outdated and update reports.
pub struct DependencyRow {
    pub toolchain: ToolchainKind,
    /// Moon project names only; joined with ", " for the Workspace column.
    pub workspaces: Vec<String>,
    pub dependency: String,
    pub current: String,
    pub newest: Option<String>,
    pub newest_release_age_days: Option<u32>,
    pub latest: Option<String>,
    pub latest_release_age_days: Option<u32>,
    /// True when `latest` is exactly one major version ahead of `current`.
    pub latest_one_major_ahead: bool,
    /// Version before update (update report only).
    pub previous: Option<String>,
    /// Version after update (update report only).
    pub new_version: Option<String>,
    pub result: Option<String>,
    pub blocked_reason: Option<String>,
    pub source_path: Option<String>,
}

/// The view of an optional string.
pub open spec fn opt_view(o: Option<String>) -> Option<Seq<char>> {
    match o {
        Some(s) => Some(s@),
        None => None,
    }
}

/// The mathematical model of a dependency row.
pub struct DependencyRowView {
    pub toolchain: ToolchainKind,
    pub workspaces: Seq<Seq<char>>,
    pub dependency: Seq<char>,
    pub current: Seq<char>,
    pub newest: Option<Seq<char>>,
    pub newest_release_age_days: Option<u32>,
    pub latest: Option<Seq<char>>,
    pub latest_release_age_days: Option<u32>,
    pub latest_one_major_ahead: bool,
    pub previous: Option<Seq<char>>,
    pub new_version: Option<Seq<char>>,
    pub result: Option<Seq<char>>,
    pub blocked_reason: Option<Seq<char>>,
    pub source_path: Option<Seq<char>>,
}

impl View for DependencyRow {
    type V = DependencyRowView;

    open spec fn view(&self) -> DependencyRowView {
        DependencyRowView {
            toolchain: self.toolchain,
            workspaces: views(self.workspaces@),
            dependency: self.dependency@,
            current: self.current@,
            newest: opt_view(self.newest),
            newest_release_age_days: self.newest_release_age_days,
            latest: opt_view(self.latest),
            latest_release_age_days: self.latest_release_age_days,
            latest_one_major_ahead: self.latest_one_major_ahead,
            previous: opt_view(self.previous),
            new_version: opt_view(self.new_version),
            result: opt_view(self.result),
            blocked_reason: opt_view(self.blocked_reason),
            source_path: opt_view(self.source_path),
        }
    }
}

/// The views of a list of rows.
pub open spec fn row_views(rows: Seq<DependencyRow>) -> Seq<DependencyRowView> {
    rows.map_values(|r: DependencyRow| r@)
}

// ---------------------------------------------------------------------------
// Major versions
// ---------------------------------------------------------------------------

/// Whether `c` separates the major number from the rest of a version.
pub open spec fn is_version_sep(c: char) -> bool {
    c == '.' || c == '+' || c == '-'
}

/// The prefix of `s` before its first version separator.
pub open spec fn before_sep(s: Seq<char>) -> Seq<char>
    decreases s.len(),
{
    if s.len() == 0 {
        s
    } else if is_version_sep(s[0]) {
        Seq::<char>::empty()
    } else {
        seq![s[0]] + before_sep(s.drop_first())
    }
}

/// The major number of a version such as `v1.2.3`, `2.0.0-rc1`, `7+build`.
pub open spec fn major_of(version: Seq<char>) -> Option<u64> {
    crate::num::parse_u64(before_sep(crate::text::trim_start_char(crate::text::trim(version), 'v')))
}

/// True when `latest`'s major version is exactly one greater than `current`'s.
pub open spec fn one_major_ahead_spec(current: Seq<char>, latest: Seq<char>) -> bool {
    match (major_of(current), major_of(latest)) {
        (Some(c), Some(l)) => l == c + 1,
        _ => false,
    }
}

proof fn lemma_before_sep_take(s: Seq<char>, i: int)
    requires
        0 <= i <= s.len(),
        forall|j: int| 0 <= j < i ==> !is_version_sep(s[j]),
        i == s.len() || is_version_sep(s[i]),
    ensures
        before_sep(s) == s.take(i),
    decreases s.len(),
{
    if s.len() == 0 {
        assert(s.take(i) =~= s);
    } else if is_version_sep(s[0]) {
        assert(s.take(i) =~= Seq::<char>::empty());
    } else {
        lemma_before_sep_take(s.drop_first(), i - 1);
        assert(seq![s[0]] + s.drop_first().take(i - 1) =~= s.take(i));
    }
}

fn major_of_exec(version: &str) -> (r: Option<u64>)
    ensures
        r == major_of(version@),
{
    let t = crate::text::trim_str(version);
    let v = crate::text::trim_start_char_exec(t.as_slice(), 'v');
    let mut i: usize = 0;
    while i < v.len() && !(v[i] == '.' || v[i] == '+' || v[i] == '-')
        invariant
            i <= v@.len(),
            forall|j: int| 0 <= j < i ==> !is_version_sep(v@[j]),
        decreases v@.len() - i,
    {
        i = i + 1;
    }
    proof {
        lemma_before_sep_take(v@, i as int);
    }
    let head = crate::text::slice_chars(v.as_slice(), 0, i);
    proof {
        assert(head@ =~= v@.take(i as int));
    }
    crate::num::parse_u64_exec(head.as_slice())
}

/// True when `latest`'s major version is exactly one greater than `current`'s.
pub fn one_major_ahead(current: &str, latest: &str) -> (r: bool)
    ensures
        r == one_major_ahead_spec(current@, latest@),
{
    match (major_of_exec(current), major_of_exec(latest)) {
        (Some(c), Some(l)) => c < u64::MAX && l == c + 1,
        _ => false,
    }
}

/// A copy of an optional string.
pub fn clone_opt(o: &Option<String>) -> (r: Option<String>)
    ensures
        opt_view(r) == opt_view(*o),
{
    match o {
        Some(s) => Some(s.clone()),
        None => None,
    }
}

impl DependencyRow {
    /// Build a bare outdated row; release-age fields are filled in later.
    pub fn outdated(
        toolchain: ToolchainKind,
        dependency: String,
        current: String,
        newest: Option<String>,
        latest: Option<String>,
    ) -> (r: Self)
        ensures
            r@ == outdated_row(toolchain, dependency@, current@, opt_view(newest), opt_view(latest)),
    {
        let latest_one_major_ahead = match &latest {
            Some(l) => one_major_ahead(current.as_str(), l.as_str()),
            None => false,
        };
        let r = DependencyRow {
            toolchain,
            workspaces: Vec::new(),
            dependency,
            current,
            newest,
            newest_release_age_days: None,
            latest,
            latest_release_age_days: None,
            latest_one_major_ahead,
            previous: None,
            new_version: None,
            result: None,
            blocked_reason: None,
            source_path: None,
        };
        assert(r@.workspaces =~= Seq::<Seq<char>>::empty());
        r
    }
}

/// The bare outdated row for a dependency (no workspaces, ages or update fields).
pub open spec fn outdated_row(
    toolchain: ToolchainKind,
    dependency: Seq<char>,
    current: Seq<char>,
    newest: Option<Seq<char>>,
    latest: Option<Seq<char>>,
) -> DependencyRowView {
    DependencyRowView {
        toolchain,
        workspaces: Seq::<Seq<char>>::empty(),
        dependency,
        current,
        newest,
        newest_release_age_days: None,
        latest,
        latest_release_age_days: None,
        latest_one_major_ahead: match latest {
            Some(l) => one_major_ahead_spec(current, l),
            None => false,
        },
        previous: None,
        new_version: None,
        result: None,
        blocked_reason: None,
        source_path: None,
    }
}

// ---------------------------------------------------------------------------
// Snapshots
// ---------------------------------------------------------------------------

/// Per-toolchain probe result captured in the snapshot and live panel.
pub struct ToolchainSnapshot {
    pub kind: ToolchainKind,
    pub label: String,
    pub state: ToolchainState,
    pub elapsed_ms: u64,
    pub started_at: Option<String>,
    pub finished_at: Option<String>,
    pub rows: Vec<DependencyRow>,
    pub diagnostics: Vec<String>,
}

/// A snapshot reports updates when its state is `Outdated` and it has rows.
pub open spec fn has_updates_spec(s: ToolchainSnapshot) -> bool {
    s.state == ToolchainState::Outdated && s.rows@.len() > 0
}

impl ToolchainSnapshot {
    /// Whether this toolchain has updates to apply.
    pub fn has_updates(&self) -> (r: bool)
        ensures
            r == has_updates_spec(*self),
    {
        self.state == ToolchainState::Outdated && self.rows.len() > 0
    }
}

/// Policy inputs that affect probe/update results; recorded for snapshot reuse.
pub struct SnapshotPolicy {
    pub major: bool,
    pub min_release_age_days: u64,
    pub uv_exclude_newer: Option<String>,
    pub firewall: bool,
}

/// The kinds, in input order, of the snapshots that have updates.
pub open spec fn outdated_kinds_spec(snapshots: Seq<ToolchainSnapshot>) -> Seq<ToolchainKind>
    decreases snapshots.len(),
{
    if snapshots.len() == 0 {
        Seq::<ToolchainKind>::empty()
    } else {
        outdated_kinds_spec(snapshots.drop_last()) + if has_updates_spec(snapshots.last()) {
            seq![snapshots.last().kind]
        } else {
            Seq::<ToolchainKind>::empty()
        }
    }
}

/// Toolchain kinds reported as outdated (used by `luna update` to select work).
pub fn outdated_kinds(snapshots: &[ToolchainSnapshot]) -> (r: Vec<ToolchainKind>)
    ensures
        r@ == outdated_kinds_spec(snapshots@),
{
    let mut r: Vec<ToolchainKind> = Vec::new();
    let mut i: usize = 0;
    while i < snapshots.len()
        invariant
            i <= snapshots@.len(),
            r@ == outdated_kinds_spec(snapshots@.take(i as int)),
        decreases snapshots@.len() - i,
    {
        proof {
            assert(snapshots@.take(i + 1).drop_last() =~= snapshots@.take(i as int));
        }
        if snapshots[i].has_updates() {
            r.push(snapshots[i].kind);
        }
        proof {
            assert(r@ =~= outdated_kinds_spec(snapshots@.take(i + 1)));
        }
        i = i + 1;
    }
    proof {
        assert(snapshots@.take(snapshots@.len() as int) =~= snapshots@);
    }
    r
}

/// Whether any snapshot has updates.
pub fn any_has_updates(snapshots: &[ToolchainSnapshot]) -> (r: bool)
    ensures
        r == exists|i: int| 0 <= i < snapshots@.len() && #[trigger] has_updates_spec(snapshots@[i]),
{
    let mut i: usize = 0;
    while i < snapshots.len()
        invariant
            i <= snapshots@.len(),
            forall|j: int| 0 <= j < i ==> !#[trigger] has_updates_spec(snapshots@[j]),
        decreases snapshots@.len() - i,
    {
        if snapshots[i].has_updates() {
            return true;
        }
        i = i + 1;
    }
    false
}

/// Build the policy fingerprint for an invocation.
pub fn policy_from(major: bool, firewall: bool, min_release_age_days: u64) -> (r: SnapshotPolicy)
    requires
        min_release_age_days * crate::security::SECONDS_PER_DAY <= u64::MAX,
    ensures
        r.major == major,
        r.firewall == firewall,
        r.min_release_age_days == min_release_age_days,
        r.uv_exclude_newer matches Some(d) && exists|now: u64|
            #[trigger] crate::security::is_date_text_of_day(
                d@,
                crate::security::cutoff_day(now, (min_release_age_days * crate::security::SECONDS_PER_DAY) as u64),
            ),
{
    let d = crate::security::exclude_newer_date(min_release_age_days);
    let ghost dv = d@;
    let r = SnapshotPolicy { major, min_release_age_days, uv_exclude_newer: Some(d), firewall };
    assert(r.uv_exclude_newer.unwrap()@ == dv);
    r
}

/// Whether the update phase failed, succeeded, or stopped at the release-age gate.
pub enum UpdateOutcome {
    Done,
    Blocked,
    Failed(String),
}

impl UpdateOutcome {
    /// The toolchain state this outcome leaves behind.
    pub fn state(&self) -> (r: ToolchainState)
        ensures
            r == match self {
                UpdateOutcome::Done => ToolchainState::UpToDate,
                UpdateOutcome::Blocked => ToolchainState::Blocked,
                UpdateOutcome::Failed(_) => ToolchainState::Failed,
            },
    {
        match self {
            UpdateOutcome::Done => ToolchainState::UpToDate,
            UpdateOutcome::Blocked => ToolchainState::Blocked,
            UpdateOutcome::Failed(_) => ToolchainState::Failed,
        }
    }
}

/// What happened to one package during an update.
#[derive(Clone, Copy, PartialEq, Eq, Structural, Debug)]
pub enum PackageUpdateStatus {
    Updated,
    Unchanged,
    Blocked,
    Failed,
}

/// The result of updating one package.
pub struct PackageUpdateResult {
    pub toolchain: ToolchainKind,
    pub workspaces: Vec<String>,
    pub dependency: String,
    pub registry_name: Option<String>,
    pub previous: String,
    pub new_version: Option<String>,
    pub status: PackageUpdateStatus,
}


impl DependencyRow {
    /// A copy of this row.
    pub fn duplicate(&self) -> (r: Self)
        ensures
            r@ == self@,
    {
        DependencyRow {
            toolchain: self.toolchain,
            workspaces: crate::security::clone_strings(self.workspaces.as_slice()),
            dependency: self.dependency.clone(),
            current: self.current.clone(),
            newest: clone_opt(&self.newest),
            newest_release_age_days: self.newest_release_age_days,
            latest: clone_opt(&self.latest),
            latest_release_age_days: self.latest_release_age_days,
            latest_one_major_ahead: self.latest_one_major_ahead,
            previous: clone_opt(&self.previous),
            new_version: clone_opt(&self.new_version),
            result: clone_opt(&self.result),
            blocked_reason: clone_opt(&self.blocked_reason),
            source_path: clone_opt(&self.source_path),
        }
    }
}

/// The model of a toolchain snapshot.
pub struct SnapshotView {
    pub kind: ToolchainKind,
    pub label: Seq<char>,
    pub state: ToolchainState,
    pub elapsed_ms: u64,
    pub started_at: Option<Seq<char>>,
    pub finished_at: Option<Seq<char>>,
    pub rows: Seq<DependencyRowView>,
    pub diagnostics: Seq<Seq<char>>,
}

impl View for ToolchainSnapshot {
    type V = SnapshotView;

    open spec fn view(&self) -> SnapshotView {
        SnapshotView {
            kind: self.kind,
            label: self.label@,
            state: self.state,
            elapsed_ms: self.elapsed_ms,
            started_at: opt_view(self.started_at),
            finished_at: opt_view(self.finished_at),
            rows: row_views(self.rows@),
            diagnostics: views(self.diagnostics@),
        }
    }
}

/// The views of a list of snapshots.
pub open spec fn snapshot_views(v: Seq<ToolchainSnapshot>) -> Seq<SnapshotView> {
    v.map_values(|s: ToolchainSnapshot| s@)
}

/// A copy of a list of rows.
pub fn duplicate_rows(rows: &[DependencyRow]) -> (r: Vec<DependencyRow>)
    ensures
        row_views(r@) == row_views(rows@),
{
    let mut r: Vec<DependencyRow> = Vec::new();
    let mut i: usize = 0;
    while i < rows.len()
        invariant
            i <= rows@.len(),
            row_views(r@) == row_views(rows@.take(i as int)),
        decreases rows@.len() - i,
    {
        let ghost before = row_views(r@);
        r.push(rows[i].duplicate());
        proof {
            assert(row_views(r@) =~= before.push(rows@[i as int]@));
            assert(row_views(rows@.take(i + 1)) =~= row_views(rows@.take(i as int)).push(rows@[i as int]@));
        }
        i = i + 1;
    }
    proof {
        assert(rows@.take(rows@.len() as int) =~= rows@);
    }
    r
}

impl ToolchainSnapshot {
    /// A copy of this snapshot.
    pub fn duplicate(&self) -> (r: Self)
        ensures
            r@ == self@,
            has_updates_spec(r) == has_updates_spec(*self),
    {
        let rows = duplicate_rows(self.rows.as_slice());
        assert(rows@.len() == row_views(rows@).len());
        ToolchainSnapshot {
            kind: self.kind,
            label: self.label.clone(),
            state: self.state,
            elapsed_ms: self.elapsed_ms,
            started_at: clone_opt(&self.started_at),
            finished_at: clone_opt(&self.finished_at),
            rows,
            diagnostics: crate::security::clone_strings(self.diagnostics.as_slice()),
        }
    }
}

/// A copy of a list of snapshots.
pub fn duplicate_snapshots(v: &[ToolchainSnapshot]) -> (r: Vec<ToolchainSnapshot>)
    ensures
        snapshot_views(r@) == snapshot_views(v@),
{
    let mut r: Vec<ToolchainSnapshot> = Vec::new();
    let mut i: usize = 0;
    while i < v.len()
        invariant
            i <= v@.len(),
            snapshot_views(r@) == snapshot_views(v@.take(i as int)),
        decreases v@.len() - i,
    {
        let ghost before = snapshot_views(r@);
        r.push(v[i].duplicate());
        proof {
            assert(snapshot_views(r@) =~= before.push(v@[i as int]@));
            assert(snapshot_views(v@.take(i + 1)) =~= snapshot_views(v@.take(i as int)).push(v@[i as int]@));
        }
        i = i + 1;
    }
    proof {
        assert(v@.take(v@.len() as int) =~= v@);
    }
    r
}

} // verus!
