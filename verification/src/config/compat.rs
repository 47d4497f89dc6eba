//! A configuration built from a repository's legacy files, for workspaces that
//! have no `luna.toml` yet.
use vstd::prelude::*;
use crate::commands::env::present_strings;
use crate::config::{
    LunaConfig, WorkspaceConfig, StateConfig, BootstrapConfig, PolicyConfig, FirewallPolicy, AdaptersConfig,
    BunAdapterConfig, UvAdapterConfig, CargoAdapterConfig, GoAdapterConfig, PixiAdapterConfig, CompatConfig,
    MoonCompatConfig, CommandsConfig, AgentConfig, SCHEMA_VERSION,
};
use crate::formats::{toml_array, toml_array_at, opt_strs_view};
use crate::security::min_release_age_days_spec;
use crate::text::{views, string_from, str_eq};

verus! {

/// What the legacy import reads from the repository and the environment.
pub struct LegacyFacts {
    /// The name of the workspace root directory, when it has a UTF-8 one.
    pub dir_name: Option<String>,
    /// The text of `pyproject.toml`, when it exists and can be read.
    pub pyproject: Option<String>,
    /// `pixi.toml` exists.
    pub pixi_toml: bool,
    /// `.moon/` exists.
    pub moon_dir: bool,
    /// The value of `LUNA_MIN_RELEASE_AGE`, if set.
    pub min_release_age_var: Option<String>,
    /// The value of `LUNA_FIREWALL`, if set.
    pub firewall_var: Option<String>,
}

/// The key path of the uv workspace members in `pyproject.toml`.
pub open spec fn uv_members_path() -> Seq<Seq<char>> {
    seq!["tool"@, "uv"@, "workspace"@, "members"@]
}

/// The uv workspace members listed in a `pyproject.toml` text (its string
/// entries); none when it does not parse or lists none.
pub open spec fn uv_members_spec(pyproject: Option<Seq<char>>) -> Seq<Seq<char>> {
    match pyproject {
        Some(t) => match toml_array_at(t, uv_members_path()) {
            Some(a) => present_strings(a),
            None => seq![],
        },
        None => seq![],
    }
}

/// Whether a `LUNA_FIREWALL` value turns the firewall on: set, non-empty, and
/// neither `0` nor `false`.
pub open spec fn firewall_var_on(v: Option<Seq<char>>) -> bool {
    match v {
        Some(s) => s.len() > 0 && s != "0"@ && s != "false"@,
        None => false,
    }
}

/// The legacy configuration: the directory's name (or `luna`), Pixi as the
/// bootstrap provider and frozen installs when `pixi.toml` exists, the uv
/// members of `pyproject.toml`, Moon compatibility when `.moon/` exists, and the
/// release age and firewall from the environment; defaults elsewhere.
pub open spec fn legacy_config_spec(r: LunaConfig, f: LegacyFacts) -> bool {
    &&& r.schema == SCHEMA_VERSION
    &&& r.workspace.name@ == match f.dir_name {
        Some(n) => n@,
        None => "luna"@,
    }
    &&& r.workspace.root@ == "."@
    &&& r.workspace.default_profile@ == "dev"@
    &&& r.state.dir@ == ".luna"@
    &&& r.state.snapshot_ttl_hours == 8
    &&& r.bootstrap.provider@ == (if f.pixi_toml { "pixi"@ } else { "proto"@ })
    &&& views(r.bootstrap.compat_providers@) == (if f.pixi_toml { seq!["proto"@] } else { seq![] })
    &&& r.bootstrap.auto_install_pixi == f.pixi_toml
    &&& r.policy.min_release_age_days == min_release_age_days_spec(crate::deps::model::opt_view(f.min_release_age_var))
    &&& r.policy.firewall == (if firewall_var_on(crate::deps::model::opt_view(f.firewall_var)) {
        FirewallPolicy::Socket
    } else {
        FirewallPolicy::OptIn
    })
    &&& r.policy.network_default@ == "restricted"@
    &&& !r.policy.allow_git_dependencies
    &&& r.policy.ignore_lifecycle_scripts
    &&& r.policy.frozen_ci == f.pixi_toml
    &&& r.adapters.bun.manifest@ == "package.json"@
    &&& r.adapters.bun.lockfile@ == "bun.lock"@
    &&& views(r.adapters.bun.workspace_globs@) == seq!["apps/*"@, "packages/*"@]
    &&& r.adapters.uv.manifest@ == "pyproject.toml"@
    &&& r.adapters.uv.lockfile@ == "uv.lock"@
    &&& views(r.adapters.uv.workspace_members@) == uv_members_spec(crate::deps::model::opt_view(f.pyproject))
    &&& r.adapters.cargo.manifest@ == "Cargo.toml"@
    &&& r.adapters.cargo.lockfile@ == "Cargo.lock"@
    &&& r.adapters.go.workspace@ == "go.work"@
    &&& r.adapters.pixi.manifest@ == "pixi.toml"@
    &&& r.adapters.pixi.enabled == f.pixi_toml
    &&& r.compat.moon.enabled == f.moon_dir
    &&& r.compat.moon.workspace@ == ".moon/workspace.yml"@
    &&& r.commands.build.default_scope@ == "applications"@
    &&& r.commands.build.watcher is None
    &&& r.commands.dev.default_scope@ == "applications"@
    &&& r.commands.dev.watcher is None
    &&& !r.agent.json_default
    &&& r.agent.safe_mode_default@ == "inspect"@
    &&& !r.agent.mcp
}

fn uv_members(pyproject: &Option<String>) -> (r: Vec<String>)
    ensures
        views(r@) == uv_members_spec(crate::deps::model::opt_view(*pyproject)),
{
    let mut out: Vec<String> = Vec::new();
    let text = match pyproject {
        Some(t) => t,
        None => {
            assert(views(out@) =~= seq![]);
            return out;
        },
    };
    let path = crate::formats::strings(&["tool", "uv", "workspace", "members"]);
    proof {
        assert(views(path@) =~= uv_members_path());
    }
    match toml_array(text.as_str(), &path) {
        Some(members) => crate::commands::env::strings_present(&members),
        None => {
            assert(views(out@) =~= seq![]);
            out
        },
    }
}

/// Whether a `LUNA_FIREWALL` value turns the firewall on.
pub fn firewall_from_var(v: Option<&str>) -> (r: FirewallPolicy)
    ensures
        r == (if firewall_var_on(
            match v {
                Some(s) => Some(s@),
                None => None,
            },
        ) {
            FirewallPolicy::Socket
        } else {
            FirewallPolicy::OptIn
        }),
{
    match v {
        Some(s) => {
            let n = crate::text::chars_of(s).len();
            if n > 0 && !str_eq(s, "0") && !str_eq(s, "false") {
                FirewallPolicy::Socket
            } else {
                FirewallPolicy::OptIn
            }
        },
        None => FirewallPolicy::OptIn,
    }
}

/// Construct a `LunaConfig` from a repository's legacy files when no
/// `luna.toml` exists.
pub fn from_legacy(facts: &LegacyFacts) -> (r: LunaConfig)
    ensures
        legacy_config_spec(r, *facts),
{
    let name = match &facts.dir_name {
        Some(n) => n.clone(),
        None => string_from("luna"),
    };
    let pixi = facts.pixi_toml;
    let min_release_age_days = crate::security::min_release_age_days(
        match &facts.min_release_age_var {
            Some(v) => Some(v.as_str()),
            None => None,
        },
    );
    let firewall = firewall_from_var(
        match &facts.firewall_var {
            Some(v) => Some(v.as_str()),
            None => None,
        },
    );
    let mut compat_providers: Vec<String> = Vec::new();
    if pixi {
        compat_providers.push(string_from("proto"));
    }
    assert(views(compat_providers@) =~= (if pixi { seq!["proto"@] } else { seq![] }));
    let uv_default = UvAdapterConfig::default();
    let pixi_default = PixiAdapterConfig::default();
    let moon_default = MoonCompatConfig::default();
    LunaConfig {
        schema: SCHEMA_VERSION,
        workspace: WorkspaceConfig { name, root: string_from("."), default_profile: string_from("dev") },
        state: StateConfig::default(),
        bootstrap: BootstrapConfig {
            provider: if pixi { string_from("pixi") } else { string_from("proto") },
            compat_providers,
            auto_install_pixi: pixi,
        },
        policy: PolicyConfig {
            min_release_age_days,
            firewall,
            network_default: string_from("restricted"),
            allow_git_dependencies: false,
            ignore_lifecycle_scripts: true,
            frozen_ci: pixi,
        },
        adapters: AdaptersConfig {
            bun: BunAdapterConfig::default(),
            uv: UvAdapterConfig { workspace_members: uv_members(&facts.pyproject), ..uv_default },
            cargo: CargoAdapterConfig::default(),
            go: GoAdapterConfig::default(),
            pixi: PixiAdapterConfig { enabled: pixi, ..pixi_default },
        },
        compat: CompatConfig { moon: MoonCompatConfig { enabled: facts.moon_dir, ..moon_default } },
        commands: CommandsConfig::default(),
        agent: AgentConfig::default(),
    }
}


/// A configuration imported from legacy files is valid whenever the root
/// directory's name is not empty.
pub proof fn lemma_legacy_config_valid(r: LunaConfig, f: LegacyFacts)
    requires
        legacy_config_spec(r, f),
        match f.dir_name {
            Some(n) => n@.len() > 0,
            None => true,
        },
    ensures
        crate::config::validate_spec(r) is Ok,
{
    reveal_strlit("luna");
    reveal_strlit(".luna");
}

} // verus!
