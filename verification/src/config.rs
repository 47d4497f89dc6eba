//! The `luna.toml` configuration model, its defaults, and its validation.
pub mod compat;

use vstd::prelude::*;
use crate::text::{string_from, views};

verus! {

/// Schema version constant — bump when making breaking config changes.
pub const SCHEMA_VERSION: u32 = 1;

/// Root `luna.toml` configuration model.
pub struct LunaConfig {
    /// Schema version for forward compatibility.
    pub schema: u32,
    pub workspace: WorkspaceConfig,
    pub state: StateConfig,
    pub bootstrap: BootstrapConfig,
    pub policy: PolicyConfig,
    pub adapters: AdaptersConfig,
    pub compat: CompatConfig,
    pub commands: CommandsConfig,
    pub agent: AgentConfig,
}

/// `[workspace]`.
pub struct WorkspaceConfig {
    pub name: String,
    pub root: String,
    pub default_profile: String,
}

/// `[state]`.
pub struct StateConfig {
    pub dir: String,
    pub snapshot_ttl_hours: u64,
}

/// `[bootstrap]`.
pub struct BootstrapConfig {
    pub provider: String,
    pub compat_providers: Vec<String>,
    pub auto_install_pixi: bool,
}

/// `[policy]`.
pub struct PolicyConfig {
    pub min_release_age_days: u64,
    pub firewall: FirewallPolicy,
    pub network_default: String,
    pub allow_git_dependencies: bool,
    pub ignore_lifecycle_scripts: bool,
    pub frozen_ci: bool,
}

/// `policy.firewall`: `off`, `opt-in` (default) or `socket`.
#[derive(Clone, Copy, PartialEq, Eq, Structural, Debug)]
pub enum FirewallPolicy {
    Off,
    OptIn,
    Socket,
}

/// `[adapters]`.
pub struct AdaptersConfig {
    pub bun: BunAdapterConfig,
    pub uv: UvAdapterConfig,
    pub cargo: CargoAdapterConfig,
    pub go: GoAdapterConfig,
    pub pixi: PixiAdapterConfig,
}

/// `[adapters.bun]`.
pub struct BunAdapterConfig {
    pub manifest: String,
    pub lockfile: String,
    pub workspace_globs: Vec<String>,
}

/// `[adapters.uv]`.
pub struct UvAdapterConfig {
    pub manifest: String,
    pub lockfile: String,
    pub workspace_members: Vec<String>,
}

/// `[adapters.cargo]`.
pub struct CargoAdapterConfig {
    pub manifest: String,
    pub lockfile: String,
}

/// `[adapters.go]`.
pub struct GoAdapterConfig {
    pub workspace: String,
}

/// `[adapters.pixi]`.
pub struct PixiAdapterConfig {
    pub manifest: String,
    pub enabled: bool,
}

/// `[compat]`.
pub struct CompatConfig {
    pub moon: MoonCompatConfig,
}

/// `[compat.moon]`.
pub struct MoonCompatConfig {
    pub enabled: bool,
    pub workspace: String,
}

/// `[commands]`.
pub struct CommandsConfig {
    pub build: CommandDefaults,
    pub dev: CommandDefaults,
}

/// `[commands.<name>]`.
pub struct CommandDefaults {
    pub default_scope: String,
    pub watcher: Option<String>,
}

/// `[agent]`.
pub struct AgentConfig {
    pub json_default: bool,
    pub safe_mode_default: String,
    pub mcp: bool,
}

// ---------------------------------------------------------------------------
// Defaults
// ---------------------------------------------------------------------------

fn default_name() -> (s: String)
    ensures
        s@ == "luna"@,
{
    string_from("luna")
}

fn default_root() -> (s: String)
    ensures
        s@ == "."@,
{
    string_from(".")
}

fn default_profile() -> (s: String)
    ensures
        s@ == "dev"@,
{
    string_from("dev")
}

fn default_state_dir() -> (s: String)
    ensures
        s@ == ".luna"@,
{
    string_from(".luna")
}

fn default_snapshot_ttl() -> (n: u64)
    ensures
        n == 8,
{
    8
}

fn default_bootstrap_provider() -> (s: String)
    ensures
        s@ == "pixi"@,
{
    string_from("pixi")
}

fn default_compat_providers() -> (v: Vec<String>)
    ensures
        views(v@) == seq!["proto"@],
{
    let mut v: Vec<String> = Vec::new();
    v.push(string_from("proto"));
    proof {
        assert(views(v@) =~= seq!["proto"@]);
    }
    v
}

fn default_min_release_age() -> (n: u64)
    ensures
        n == 14,
{
    14
}

fn default_network() -> (s: String)
    ensures
        s@ == "restricted"@,
{
    string_from("restricted")
}

fn default_true() -> (b: bool)
    ensures
        b,
{
    true
}

fn default_bun_manifest() -> (s: String)
    ensures
        s@ == "package.json"@,
{
    string_from("package.json")
}

fn default_bun_lockfile() -> (s: String)
    ensures
        s@ == "bun.lock"@,
{
    string_from("bun.lock")
}

fn default_workspace_globs() -> (v: Vec<String>)
    ensures
        views(v@) == seq!["apps/*"@, "packages/*"@],
{
    let mut v: Vec<String> = Vec::new();
    v.push(string_from("apps/*"));
    v.push(string_from("packages/*"));
    proof {
        assert(views(v@) =~= seq!["apps/*"@, "packages/*"@]);
    }
    v
}

fn default_uv_manifest() -> (s: String)
    ensures
        s@ == "pyproject.toml"@,
{
    string_from("pyproject.toml")
}

fn default_uv_lockfile() -> (s: String)
    ensures
        s@ == "uv.lock"@,
{
    string_from("uv.lock")
}

fn default_cargo_manifest() -> (s: String)
    ensures
        s@ == "Cargo.toml"@,
{
    string_from("Cargo.toml")
}

fn default_cargo_lockfile() -> (s: String)
    ensures
        s@ == "Cargo.lock"@,
{
    string_from("Cargo.lock")
}

fn default_go_workspace() -> (s: String)
    ensures
        s@ == "go.work"@,
{
    string_from("go.work")
}

fn default_pixi_manifest() -> (s: String)
    ensures
        s@ == "pixi.toml"@,
{
    string_from("pixi.toml")
}

fn default_moon_workspace() -> (s: String)
    ensures
        s@ == ".moon/workspace.yml"@,
{
    string_from(".moon/workspace.yml")
}

fn default_scope() -> (s: String)
    ensures
        s@ == "applications"@,
{
    string_from("applications")
}

fn default_safe_mode() -> (s: String)
    ensures
        s@ == "inspect"@,
{
    string_from("inspect")
}

impl Default for WorkspaceConfig {
    fn default() -> (r: Self)
        ensures
            r.name@ == "luna"@,
            r.root@ == "."@,
            r.default_profile@ == "dev"@,
    {
        WorkspaceConfig { name: default_name(), root: default_root(), default_profile: default_profile() }
    }
}

impl Default for StateConfig {
    fn default() -> (r: Self)
        ensures
            r.dir@ == ".luna"@,
            r.snapshot_ttl_hours == 8,
    {
        StateConfig { dir: default_state_dir(), snapshot_ttl_hours: default_snapshot_ttl() }
    }
}

impl Default for BootstrapConfig {
    fn default() -> (r: Self)
        ensures
            r.provider@ == "pixi"@,
            views(r.compat_providers@) == seq!["proto"@],
            r.auto_install_pixi,
    {
        BootstrapConfig {
            provider: default_bootstrap_provider(),
            compat_providers: default_compat_providers(),
            auto_install_pixi: default_true(),
        }
    }
}

impl Default for PolicyConfig {
    fn default() -> (r: Self)
        ensures
            r.min_release_age_days == 14,
            r.firewall == FirewallPolicy::OptIn,
            r.network_default@ == "restricted"@,
            !r.allow_git_dependencies,
            r.ignore_lifecycle_scripts,
            !r.frozen_ci,
    {
        PolicyConfig {
            min_release_age_days: default_min_release_age(),
            firewall: FirewallPolicy::default(),
            network_default: default_network(),
            allow_git_dependencies: false,
            ignore_lifecycle_scripts: default_true(),
            frozen_ci: false,
        }
    }
}

impl Default for FirewallPolicy {
    fn default() -> (r: Self)
        ensures
            r == FirewallPolicy::OptIn,
    {
        FirewallPolicy::OptIn
    }
}

impl Default for BunAdapterConfig {
    fn default() -> (r: Self)
        ensures
            r.manifest@ == "package.json"@,
            r.lockfile@ == "bun.lock"@,
            views(r.workspace_globs@) == seq!["apps/*"@, "packages/*"@],
    {
        BunAdapterConfig {
            manifest: default_bun_manifest(),
            lockfile: default_bun_lockfile(),
            workspace_globs: default_workspace_globs(),
        }
    }
}

impl Default for UvAdapterConfig {
    fn default() -> (r: Self)
        ensures
            r.manifest@ == "pyproject.toml"@,
            r.lockfile@ == "uv.lock"@,
            r.workspace_members@.len() == 0,
    {
        UvAdapterConfig {
            manifest: default_uv_manifest(),
            lockfile: default_uv_lockfile(),
            workspace_members: Vec::new(),
        }
    }
}

impl Default for CargoAdapterConfig {
    fn default() -> (r: Self)
        ensures
            r.manifest@ == "Cargo.toml"@,
            r.lockfile@ == "Cargo.lock"@,
    {
        CargoAdapterConfig { manifest: default_cargo_manifest(), lockfile: default_cargo_lockfile() }
    }
}

impl Default for GoAdapterConfig {
    fn default() -> (r: Self)
        ensures
            r.workspace@ == "go.work"@,
    {
        GoAdapterConfig { workspace: default_go_workspace() }
    }
}

impl Default for PixiAdapterConfig {
    fn default() -> (r: Self)
        ensures
            r.manifest@ == "pixi.toml"@,
            r.enabled,
    {
        PixiAdapterConfig { manifest: default_pixi_manifest(), enabled: default_true() }
    }
}

impl Default for AdaptersConfig {
    fn default() -> (r: Self)
        ensures
            r.bun.manifest@ == "package.json"@,
            r.bun.lockfile@ == "bun.lock"@,
            views(r.bun.workspace_globs@) == seq!["apps/*"@, "packages/*"@],
            r.uv.manifest@ == "pyproject.toml"@,
            r.uv.lockfile@ == "uv.lock"@,
            r.uv.workspace_members@.len() == 0,
            r.cargo.manifest@ == "Cargo.toml"@,
            r.cargo.lockfile@ == "Cargo.lock"@,
            r.go.workspace@ == "go.work"@,
            r.pixi.manifest@ == "pixi.toml"@,
            r.pixi.enabled,
    {
        AdaptersConfig {
            bun: BunAdapterConfig::default(),
            uv: UvAdapterConfig::default(),
            cargo: CargoAdapterConfig::default(),
            go: GoAdapterConfig::default(),
            pixi: PixiAdapterConfig::default(),
        }
    }
}

impl Default for MoonCompatConfig {
    fn default() -> (r: Self)
        ensures
            r.enabled,
            r.workspace@ == ".moon/workspace.yml"@,
    {
        MoonCompatConfig { enabled: default_true(), workspace: default_moon_workspace() }
    }
}

impl Default for CompatConfig {
    fn default() -> (r: Self)
        ensures
            r.moon.enabled,
            r.moon.workspace@ == ".moon/workspace.yml"@,
    {
        CompatConfig { moon: MoonCompatConfig::default() }
    }
}

impl Default for CommandDefaults {
    fn default() -> (r: Self)
        ensures
            r.default_scope@ == "applications"@,
            r.watcher is None,
    {
        CommandDefaults { default_scope: default_scope(), watcher: None }
    }
}

impl Default for CommandsConfig {
    fn default() -> (r: Self)
        ensures
            r.build.default_scope@ == "applications"@,
            r.build.watcher is None,
            r.dev.default_scope@ == "applications"@,
            r.dev.watcher is None,
    {
        CommandsConfig { build: CommandDefaults::default(), dev: CommandDefaults::default() }
    }
}

impl Default for AgentConfig {
    fn default() -> (r: Self)
        ensures
            !r.json_default,
            r.safe_mode_default@ == "inspect"@,
            !r.mcp,
    {
        AgentConfig { json_default: false, safe_mode_default: default_safe_mode(), mcp: false }
    }
}

/// The configuration every field of which holds its default value.
pub open spec fn is_default_config(r: LunaConfig) -> bool {
    &&& r.schema == SCHEMA_VERSION
    &&& r.workspace.name@ == "luna"@
    &&& r.workspace.root@ == "."@
    &&& r.workspace.default_profile@ == "dev"@
    &&& r.state.dir@ == ".luna"@
    &&& r.state.snapshot_ttl_hours == 8
    &&& r.bootstrap.provider@ == "pixi"@
    &&& views(r.bootstrap.compat_providers@) == seq!["proto"@]
    &&& r.bootstrap.auto_install_pixi
    &&& r.policy.min_release_age_days == 14
    &&& r.policy.firewall == FirewallPolicy::OptIn
    &&& r.policy.network_default@ == "restricted"@
    &&& !r.policy.allow_git_dependencies
    &&& r.policy.ignore_lifecycle_scripts
    &&& !r.policy.frozen_ci
    &&& r.adapters.bun.manifest@ == "package.json"@
    &&& r.adapters.bun.lockfile@ == "bun.lock"@
    &&& views(r.adapters.bun.workspace_globs@) == seq!["apps/*"@, "packages/*"@]
    &&& r.adapters.uv.manifest@ == "pyproject.toml"@
    &&& r.adapters.uv.lockfile@ == "uv.lock"@
    &&& r.adapters.uv.workspace_members@.len() == 0
    &&& r.adapters.cargo.manifest@ == "Cargo.toml"@
    &&& r.adapters.cargo.lockfile@ == "Cargo.lock"@
    &&& r.adapters.go.workspace@ == "go.work"@
    &&& r.adapters.pixi.manifest@ == "pixi.toml"@
    &&& r.adapters.pixi.enabled
    &&& r.compat.moon.enabled
    &&& r.compat.moon.workspace@ == ".moon/workspace.yml"@
    &&& r.commands.build.default_scope@ == "applications"@
    &&& r.commands.build.watcher is None
    &&& r.commands.dev.default_scope@ == "applications"@
    &&& r.commands.dev.watcher is None
    &&& !r.agent.json_default
    &&& r.agent.safe_mode_default@ == "inspect"@
    &&& !r.agent.mcp
}

impl Default for LunaConfig {
    fn default() -> (r: Self)
        ensures
            is_default_config(r),
    {
        LunaConfig {
            schema: SCHEMA_VERSION,
            workspace: WorkspaceConfig::default(),
            state: StateConfig::default(),
            bootstrap: BootstrapConfig::default(),
            policy: PolicyConfig::default(),
            adapters: AdaptersConfig::default(),
            compat: CompatConfig::default(),
            commands: CommandsConfig::default(),
            agent: AgentConfig::default(),
        }
    }
}

// ---------------------------------------------------------------------------
// Validation
// ---------------------------------------------------------------------------

/// Why a loaded configuration is inconsistent.
#[derive(Clone, Copy, PartialEq, Eq, Structural, Debug)]
pub enum ConfigError {
    /// `schema` is 0.
    ZeroSchema,
    /// `workspace.name` is empty.
    EmptyWorkspaceName,
    /// `state.dir` is empty.
    EmptyStateDir,
    /// `policy.min_release_age_days` is 0.
    ZeroMinReleaseAge,
}

/// The message reported for a configuration error.
pub open spec fn config_error_text(e: ConfigError) -> Seq<char> {
    match e {
        ConfigError::ZeroSchema => "luna.toml: schema version must be >= 1"@,
        ConfigError::EmptyWorkspaceName => "luna.toml: workspace.name must not be empty"@,
        ConfigError::EmptyStateDir => "luna.toml: state.dir must not be empty"@,
        ConfigError::ZeroMinReleaseAge => "luna.toml: policy.min_release_age_days must be >= 1"@,
    }
}

impl ConfigError {
    /// The message reported for this error.
    pub fn message(&self) -> (s: String)
        ensures
            s@ == config_error_text(*self),
    {
        match self {
            ConfigError::ZeroSchema => string_from("luna.toml: schema version must be >= 1"),
            ConfigError::EmptyWorkspaceName => string_from(
                "luna.toml: workspace.name must not be empty",
            ),
            ConfigError::EmptyStateDir => string_from("luna.toml: state.dir must not be empty"),
            ConfigError::ZeroMinReleaseAge => string_from(
                "luna.toml: policy.min_release_age_days must be >= 1",
            ),
        }
    }
}

/// The first internal inconsistency of a configuration, if any.
pub open spec fn validate_spec(config: LunaConfig) -> Result<(), ConfigError> {
    if config.schema == 0 {
        Err(ConfigError::ZeroSchema)
    } else if config.workspace.name@.len() == 0 {
        Err(ConfigError::EmptyWorkspaceName)
    } else if config.state.dir@.len() == 0 {
        Err(ConfigError::EmptyStateDir)
    } else if config.policy.min_release_age_days == 0 {
        Err(ConfigError::ZeroMinReleaseAge)
    } else {
        Ok(())
    }
}

/// Validate a loaded `LunaConfig` for internal consistency.
pub fn validate(config: &LunaConfig) -> (r: Result<(), ConfigError>)
    ensures
        r == validate_spec(*config),
{
    if config.schema == 0 {
        return Err(ConfigError::ZeroSchema);
    }
    if crate::text::chars_of(config.workspace.name.as_str()).len() == 0 {
        return Err(ConfigError::EmptyWorkspaceName);
    }
    if crate::text::chars_of(config.state.dir.as_str()).len() == 0 {
        return Err(ConfigError::EmptyStateDir);
    }
    if config.policy.min_release_age_days == 0 {
        return Err(ConfigError::ZeroMinReleaseAge);
    }
    Ok(())
}

/// Whether each configured path exists on disk (relative to the workspace root).
pub struct RepoFiles {
    /// `adapters.bun.manifest` is a file.
    pub bun_manifest: bool,
    /// `adapters.cargo.manifest` is a file.
    pub cargo_manifest: bool,
    /// `adapters.go.workspace` is a file.
    pub go_workspace: bool,
    /// `adapters.pixi.manifest` is a file.
    pub pixi_manifest: bool,
    /// `compat.moon.workspace` is a file.
    pub moon_workspace: bool,
}

/// The drift warnings for a configuration against the files present on disk.
pub open spec fn repo_warnings(config: LunaConfig, files: RepoFiles) -> Seq<Seq<char>> {
    (if !files.bun_manifest {
        seq!["adapters.bun.manifest not found: "@ + config.adapters.bun.manifest@]
    } else {
        seq![]
    }) + (if !files.cargo_manifest {
        seq!["adapters.cargo.manifest not found: "@ + config.adapters.cargo.manifest@]
    } else {
        seq![]
    }) + (if !files.go_workspace {
        seq!["adapters.go.workspace not found: "@ + config.adapters.go.workspace@]
    } else {
        seq![]
    }) + (if config.adapters.pixi.enabled && !files.pixi_manifest {
        seq!["adapters.pixi.manifest not found (pixi enabled): "@ + config.adapters.pixi.manifest@]
    } else {
        seq![]
    }) + (if config.compat.moon.enabled && !files.moon_workspace {
        seq!["compat.moon.workspace not found: "@ + config.compat.moon.workspace@]
    } else {
        seq![]
    })
}

/// Texts that differ at a position inside both prefixes stay different whatever follows.
proof fn lemma_prefixes_differ(a: Seq<char>, x: Seq<char>, b: Seq<char>, y: Seq<char>, k: int)
    requires
        0 <= k < a.len(),
        k < b.len(),
        a[k] != b[k],
    ensures
        a + x != b + y,
{
    assert((a + x)[k] == a[k]);
    assert((b + y)[k] == b[k]);
}

/// Each drift warning is reported exactly when its file is missing (for Pixi
/// and Moon, when that integration is also enabled), independently of the other
/// files: e.g. `adapters.go.workspace not found: <go.work>` appears if and only
/// if the configured Go workspace file is absent.
pub proof fn lemma_repo_warnings_track_files(config: LunaConfig, files: RepoFiles)
    ensures
        repo_warnings(config, files).contains("adapters.bun.manifest not found: "@ + config.adapters.bun.manifest@)
            <==> !files.bun_manifest,
        repo_warnings(config, files).contains("adapters.cargo.manifest not found: "@ + config.adapters.cargo.manifest@)
            <==> !files.cargo_manifest,
        repo_warnings(config, files).contains("adapters.go.workspace not found: "@ + config.adapters.go.workspace@)
            <==> !files.go_workspace,
        repo_warnings(config, files).contains(
            "adapters.pixi.manifest not found (pixi enabled): "@ + config.adapters.pixi.manifest@,
        ) <==> (config.adapters.pixi.enabled && !files.pixi_manifest),
        repo_warnings(config, files).contains("compat.moon.workspace not found: "@ + config.compat.moon.workspace@)
            <==> (config.compat.moon.enabled && !files.moon_workspace),
{
    let pb = "adapters.bun.manifest not found: "@;
    let pc = "adapters.cargo.manifest not found: "@;
    let pg = "adapters.go.workspace not found: "@;
    let pp = "adapters.pixi.manifest not found (pixi enabled): "@;
    let pm = "compat.moon.workspace not found: "@;
    reveal_strlit("adapters.bun.manifest not found: ");
    reveal_strlit("adapters.cargo.manifest not found: ");
    reveal_strlit("adapters.go.workspace not found: ");
    reveal_strlit("adapters.pixi.manifest not found (pixi enabled): ");
    reveal_strlit("compat.moon.workspace not found: ");
    let wb = pb + config.adapters.bun.manifest@;
    let wc = pc + config.adapters.cargo.manifest@;
    let wg = pg + config.adapters.go.workspace@;
    let wp = pp + config.adapters.pixi.manifest@;
    let wm = pm + config.compat.moon.workspace@;
    // The five prefixes differ at position 9 ("adapters." then b, c, g, p) or at 0.
    let ws = seq![wb, wc, wg, wp, wm];
    assert forall|i: int, j: int| 0 <= i < 5 && 0 <= j < 5 && i != j implies ws[i] != ws[j] by {
        let ps = seq![pb, pc, pg, pp, pm];
        let xs = seq![
            config.adapters.bun.manifest@,
            config.adapters.cargo.manifest@,
            config.adapters.go.workspace@,
            config.adapters.pixi.manifest@,
            config.compat.moon.workspace@,
        ];
        assert(ws[i] == ps[i] + xs[i] && ws[j] == ps[j] + xs[j]);
        if i == 4 || j == 4 {
            lemma_prefixes_differ(ps[i], xs[i], ps[j], xs[j], 0);
        } else {
            lemma_prefixes_differ(ps[i], xs[i], ps[j], xs[j], 9);
        }
    }
    let on = seq![
        !files.bun_manifest,
        !files.cargo_manifest,
        !files.go_workspace,
        config.adapters.pixi.enabled && !files.pixi_manifest,
        config.compat.moon.enabled && !files.moon_workspace,
    ];
    let sel = |i: int| if on[i] { seq![ws[i]] } else { Seq::<Seq<char>>::empty() };
    let r = repo_warnings(config, files);
    assert(r =~= sel(0) + sel(1) + sel(2) + sel(3) + sel(4));
    assert forall|j: int| 0 <= j < 5 implies (r.contains(#[trigger] ws[j]) <==> on[j]) by {
        if on[j] {
            let k: int = (if j > 0 && on[0] { 1int } else { 0 }) + (if j > 1 && on[1] { 1int } else { 0 }) + (
            if j > 2 && on[2] { 1int } else { 0 }) + (if j > 3 && on[3] { 1int } else { 0 });
            assert(r[k] == ws[j]);
        }
        if r.contains(ws[j]) {
            let k = choose|k: int| 0 <= k < r.len() && r[k] == ws[j];
            assert(exists|i: int| 0 <= i < 5 && on[i] && r[k] == ws[i]);
        }
    }
    assert(ws[0] == wb && ws[1] == wc && ws[2] == wg && ws[3] == wp && ws[4] == wm);
}

/// `prefix` followed by `s`, as a new `String`.
pub fn prefixed(prefix: &str, s: &str) -> (r: String)
    ensures
        r@ == prefix@ + s@,
{
    let mut r = string_from(prefix);
    crate::text::push_str(&mut r, s);
    r
}

/// Validate that a `LunaConfig` is consistent with the on-disk repository.
pub fn validate_against_repo(config: &LunaConfig, files: &RepoFiles) -> (r: Vec<String>)
    ensures
        views(r@) == repo_warnings(*config, *files),
{
    let mut warnings: Vec<String> = Vec::new();
    if !files.bun_manifest {
        warnings.push(prefixed("adapters.bun.manifest not found: ", config.adapters.bun.manifest.as_str()));
    }
    let ghost w1 = views(warnings@);
    if !files.cargo_manifest {
        warnings.push(prefixed("adapters.cargo.manifest not found: ", config.adapters.cargo.manifest.as_str()));
    }
    let ghost w2 = views(warnings@);
    if !files.go_workspace {
        warnings.push(prefixed("adapters.go.workspace not found: ", config.adapters.go.workspace.as_str()));
    }
    let ghost w3 = views(warnings@);
    if config.adapters.pixi.enabled && !files.pixi_manifest {
        warnings.push(
            prefixed("adapters.pixi.manifest not found (pixi enabled): ", config.adapters.pixi.manifest.as_str()),
        );
    }
    let ghost w4 = views(warnings@);
    if config.compat.moon.enabled && !files.moon_workspace {
        warnings.push(prefixed("compat.moon.workspace not found: ", config.compat.moon.workspace.as_str()));
    }
    proof {
        assert(views(warnings@) =~= repo_warnings(*config, *files));
    }
    warnings
}


/// The default configuration is valid.
pub proof fn lemma_default_config_valid(c: LunaConfig)
    requires
        is_default_config(c),
    ensures
        validate_spec(c) is Ok,
{
    reveal_strlit("luna");
    reveal_strlit(".luna");
}

} // verus!
