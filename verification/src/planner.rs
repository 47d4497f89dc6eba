//! Execution plans: the steps each Luna target resolves to, and the decision
//! taken for each step when a plan is executed.
pub mod step;

use vstd::prelude::*;
use crate::config::LunaConfig;
use crate::deps::model::{ToolchainKind, toolchain_label, toolchain_order};
use crate::execution::{ExecutionMode, allows_mutation_spec, allows_network_spec};
use crate::formats::strings;
use crate::text::{views, string_from, push_str, replace_all, replace_str, str_eq};
pub use step::{Plan, PlanCacheKey, PlanView, Step, StepView, cache_key_for_step, mk_step, step_v, step_views};

verus! {

/// What the planner observes of the workspace on disk.
pub struct SyncFacts {
    /// `adapters.pixi.manifest` is a file.
    pub pixi_manifest: bool,
    /// `adapters.bun.manifest` is a file.
    pub bun_manifest: bool,
    /// At least one uv project (the uv workspace root or a Python project) exists.
    pub uv_projects: bool,
    /// `adapters.cargo.manifest` is a file.
    pub cargo_manifest: bool,
    /// `adapters.go.workspace` is a file.
    pub go_workspace: bool,
}

/// Why no plan could be built.
pub enum PlanError {
    /// The target verb is not one the planner knows.
    UnknownTarget(String),
}

impl PlanError {
    /// The message reported for this error.
    pub fn message(&self) -> (s: String)
        ensures
            s@ == match self {
                PlanError::UnknownTarget(t) => "unknown plan target: "@ + t@,
            },
    {
        match self {
            PlanError::UnknownTarget(t) => crate::config::prefixed("unknown plan target: ", t.as_str()),
        }
    }
}

// ---------------------------------------------------------------------------
// The sync plan
// ---------------------------------------------------------------------------

/// `s` with `x` appended when `c` holds.
pub open spec fn push_if<A>(s: Seq<A>, c: bool, x: A) -> Seq<A> {
    if c { s.push(x) } else { s }
}

/// Pixi is enabled and its manifest is present.
pub open spec fn pixi_wanted(config: LunaConfig, facts: SyncFacts) -> bool {
    config.adapters.pixi.enabled && facts.pixi_manifest
}

/// Proto installs the pinned tools first when Moon or an auto-installed Pixi needs them.
pub open spec fn needs_proto(config: LunaConfig, facts: SyncFacts) -> bool {
    config.compat.moon.enabled || (pixi_wanted(config, facts) && config.bootstrap.auto_install_pixi)
}

/// What the package-manager steps wait for: the Pixi sync when there is one.
pub open spec fn pixi_dep(config: LunaConfig, facts: SyncFacts) -> Seq<Seq<char>> {
    if pixi_wanted(config, facts) { seq!["pixi:sync"@] } else { seq![] }
}

/// The steps of the `sync`/`install` plan: proto, the Luna CLI via Moon, Pixi,
/// then each native package manager whose manifest exists.
pub open spec fn sync_steps(config: LunaConfig, facts: SyncFacts) -> Seq<StepView> {
    let np = needs_proto(config, facts);
    let moon = config.compat.moon.enabled;
    let pw = pixi_wanted(config, facts);
    let s1 = push_if(seq![], np, step_v("proto:install"@, "proto"@, "proto"@, seq!["install"@], None, seq![],
        "none"@, "install"@, "network-required"@));
    let s2 = push_if(s1, moon, step_v("moon:build-cli"@, "moon"@, "moon"@, seq!["run"@, "cli:build"@], None,
        if np { seq!["proto:install"@] } else { seq![] }, "local"@, "generate"@, "network-required"@));
    let s3 = push_if(s2, moon, step_v("moon:install-cli"@, "moon"@, "moon"@, seq!["run"@, "cli:install"@], None,
        seq!["moon:build-cli"@], "none"@, "install"@, "offline-safe"@));
    let s4 = push_if(s3, pw, step_v("pixi:sync"@, "pixi"@, "pixi"@, seq!["install"@], Some("default"@),
        if moon { seq!["moon:install-cli"@] } else if np { seq!["proto:install"@] } else { seq![] },
        "none"@, "install"@, "network-required"@));
    let s5 = push_if(s4, facts.bun_manifest, step_v("bun:install"@, "bun"@, "bun"@, seq!["install"@], None,
        pixi_dep(config, facts), "local"@, "install"@, "network-required"@));
    let s6 = push_if(s5, facts.uv_projects, step_v("uv:sync"@, "uv"@, "uv"@, seq!["sync"@], None,
        pixi_dep(config, facts), "local"@, "install"@, "network-required"@));
    let s7 = push_if(s6, facts.cargo_manifest, step_v("cargo:build"@, "cargo"@, "cargo"@, seq!["build"@], None,
        pixi_dep(config, facts), "local"@, "generate"@, "network-required"@));
    let s8 = push_if(s7, facts.go_workspace, step_v("go:work-sync"@, "go"@, "go"@, seq!["work"@, "sync"@], None,
        pixi_dep(config, facts), "none"@, "lock-only"@, "network-required"@));
    push_if(s8, facts.go_workspace, step_v("moon:web-setup"@, "moon"@, "moon"@, seq!["run"@, "web:setup"@], None,
        seq!["go:work-sync"@], "local"@, "install"@, "network-required"@))
}

fn one(s: &str) -> (r: Vec<String>)
    ensures
        views(r@) == seq![s@],
{
    let mut v: Vec<String> = Vec::new();
    v.push(string_from(s));
    assert(views(v@) =~= seq![s@]);
    v
}

fn two(a: &str, b: &str) -> (r: Vec<String>)
    ensures
        views(r@) == seq![a@, b@],
{
    let mut v: Vec<String> = Vec::new();
    v.push(string_from(a));
    v.push(string_from(b));
    assert(views(v@) =~= seq![a@, b@]);
    v
}

fn none() -> (r: Vec<String>)
    ensures
        views(r@) == Seq::<Seq<char>>::empty(),
{
    let v: Vec<String> = Vec::new();
    assert(views(v@) =~= Seq::<Seq<char>>::empty());
    v
}

fn push_step(steps: &mut Vec<Step>, s: Step)
    ensures
        step_views(final(steps)@) == step_views(old(steps)@).push(s@),
{
    steps.push(s);
    assert(step_views(steps@) =~= step_views(old(steps)@).push(s@));
}

fn plan_sync(config: &LunaConfig, facts: &SyncFacts) -> (r: Vec<Step>)
    ensures
        step_views(r@) == sync_steps(*config, *facts),
{
    let mut steps: Vec<Step> = Vec::new();
    let pixi_wanted = config.adapters.pixi.enabled && facts.pixi_manifest;
    let needs_proto = config.compat.moon.enabled || (pixi_wanted && config.bootstrap.auto_install_pixi);
    assert(step_views(steps@) =~= seq![]);
    if needs_proto {
        push_step(&mut steps, mk_step(string_from("proto:install"), "proto", "proto", one("install"), None,
            none(), "none", "install", "network-required"));
    }
    if config.compat.moon.enabled {
        let deps = if needs_proto { one("proto:install") } else { none() };
        push_step(&mut steps, mk_step(string_from("moon:build-cli"), "moon", "moon", two("run", "cli:build"),
            None, deps, "local", "generate", "network-required"));
        push_step(&mut steps, mk_step(string_from("moon:install-cli"), "moon", "moon", two("run", "cli:install"),
            None, one("moon:build-cli"), "none", "install", "offline-safe"));
    }
    if pixi_wanted {
        let deps = if config.compat.moon.enabled {
            one("moon:install-cli")
        } else if needs_proto {
            one("proto:install")
        } else {
            none()
        };
        push_step(&mut steps, mk_step(string_from("pixi:sync"), "pixi", "pixi", one("install"), Some("default"),
            deps, "none", "install", "network-required"));
    }
    if facts.bun_manifest {
        let deps = if pixi_wanted { one("pixi:sync") } else { none() };
        push_step(&mut steps, mk_step(string_from("bun:install"), "bun", "bun", one("install"), None, deps,
            "local", "install", "network-required"));
    }
    if facts.uv_projects {
        let deps = if pixi_wanted { one("pixi:sync") } else { none() };
        push_step(&mut steps, mk_step(string_from("uv:sync"), "uv", "uv", one("sync"), None, deps, "local",
            "install", "network-required"));
    }
    if facts.cargo_manifest {
        let deps = if pixi_wanted { one("pixi:sync") } else { none() };
        push_step(&mut steps, mk_step(string_from("cargo:build"), "cargo", "cargo", one("build"), None, deps,
            "local", "generate", "network-required"));
    }
    if facts.go_workspace {
        let deps = if pixi_wanted { one("pixi:sync") } else { none() };
        push_step(&mut steps, mk_step(string_from("go:work-sync"), "go", "go", two("work", "sync"), None, deps,
            "none", "lock-only", "network-required"));
        push_step(&mut steps, mk_step(string_from("moon:web-setup"), "moon", "moon", two("run", "web:setup"),
            None, one("go:work-sync"), "local", "install", "network-required"));
    }
    steps
}

// ---------------------------------------------------------------------------
// Moon-backed and native targets
// ---------------------------------------------------------------------------

/// The Moon query selecting the projects of the configured build scope.
pub open spec fn default_scope_query_spec(config: LunaConfig) -> Seq<char> {
    "projectLayer="@ + replace_all(config.commands.build.default_scope@, "applications"@, "application"@)
}

fn default_scope_query(config: &LunaConfig) -> (r: String)
    ensures
        r@ == default_scope_query_spec(*config),
{
    let mut r = string_from("projectLayer=");
    proof {
        reveal_strlit("applications");
    }
    let scope = replace_str(config.commands.build.default_scope.as_str(), "applications", "application");
    push_str(&mut r, scope.as_str());
    r
}

/// Moon names the applications layer `application`: the scope `applications`
/// (the default) queries `projectLayer=application`, and a scope that does not
/// mention `applications` is queried as written.
pub proof fn lemma_scope_query(config: LunaConfig)
    ensures
        config.commands.build.default_scope@ == "applications"@ ==> default_scope_query_spec(config)
            == "projectLayer=application"@,
        !crate::text::contains(config.commands.build.default_scope@, "applications"@) ==> default_scope_query_spec(config)
            == "projectLayer="@ + config.commands.build.default_scope@,
{
    let sc = config.commands.build.default_scope@;
    let from = "applications"@;
    reveal_strlit("applications");
    reveal_strlit("application");
    reveal_strlit("projectLayer=");
    crate::text::lemma_contains_find(sc, from);
    if sc == from {
        assert(crate::text::occurs_at(sc, from, 0)) by {
            assert(sc.subrange(0, from.len() as int) =~= sc);
        }
        crate::text::lemma_find_in_range(sc, from);
        assert(crate::text::find(sc, from) == 0);
        assert(sc.skip(12) =~= Seq::<char>::empty());
        assert(crate::text::find(Seq::<char>::empty(), from) == -1);
        assert(replace_all(Seq::<char>::empty(), from, "application"@) == Seq::<char>::empty());
        assert(replace_all(sc, from, "application"@) =~= "application"@);
        reveal_strlit("projectLayer=application");
        assert("projectLayer="@ + "application"@ =~= "projectLayer=application"@);
    }
}

/// With Moon compatibility on and the default `applications` scope, the
/// `build`, `test` and `dev` plans are one Moon step querying Moon's
/// `application` layer.
pub proof fn lemma_moon_tasks_query_application_layer(config: LunaConfig, facts: SyncFacts, target: Seq<char>)
    requires
        config.compat.moon.enabled,
        config.commands.build.default_scope@ == "applications"@,
        target == "build"@ || target == "test"@ || target == "dev"@,
    ensures
        target_steps(config, facts, target) matches Some(steps) && steps.len() == 1 && steps[0].args == seq![
            "run"@,
            ":"@ + target,
            "--query"@,
            "projectLayer=application"@,
        ],
{
    reveal_strlit("build");
    reveal_strlit("test");
    reveal_strlit("dev");
    reveal_strlit("sync");
    reveal_strlit("install");
    lemma_scope_query(config);
    assert("test"@[0] != "sync"@[0]);
    assert("test"@ != "sync"@);
    assert("build"@.len() != "sync"@.len() && "build"@.len() != "install"@.len());
    assert("dev"@.len() != "sync"@.len() && "dev"@.len() != "install"@.len() && "dev"@.len() != "build"@.len());
    assert("test"@.len() != "install"@.len() && "test"@.len() != "build"@.len() && "test"@.len() != "dev"@.len());
}

/// A `moon run :<task> --query <scope>` step, when Moon compatibility is on.
pub open spec fn moon_task_steps(config: LunaConfig, task: Seq<char>, cacheability: Seq<char>, mutability: Seq<char>, safety: Seq<char>) -> Seq<StepView> {
    if config.compat.moon.enabled {
        seq![step_v("moon:"@ + task, "moon"@, "moon"@, seq!["run"@, ":"@ + task, "--query"@, default_scope_query_spec(config)],
            None, seq![], cacheability, mutability, safety)]
    } else {
        seq![]
    }
}

fn plan_moon_task(config: &LunaConfig, task: &str, cacheability: &str, mutability: &str, safety: &str) -> (r: Vec<Step>)
    ensures
        step_views(r@) == moon_task_steps(*config, task@, cacheability@, mutability@, safety@),
{
    let mut steps: Vec<Step> = Vec::new();
    if config.compat.moon.enabled {
        let id = crate::config::prefixed("moon:", task);
        let mut args: Vec<String> = Vec::new();
        args.push(string_from("run"));
        args.push(crate::config::prefixed(":", task));
        args.push(string_from("--query"));
        args.push(default_scope_query(config));
        let ghost a = views(args@);
        assert(a =~= seq!["run"@, ":"@ + task@, "--query"@, default_scope_query_spec(*config)]);
        push_step(&mut steps, mk_step(id, "moon", "moon", args, None, none(), cacheability, mutability, safety));
        assert(step_views(steps@) =~= moon_task_steps(*config, task@, cacheability@, mutability@, safety@));
    } else {
        assert(step_views(steps@) =~= seq![]);
    }
    steps
}

/// A single `luna <verb>` step run by the native adapter.
pub open spec fn native_step(id: Seq<char>, verb: Seq<char>, mutability: Seq<char>) -> StepView {
    step_v(id, "native"@, "luna"@, seq![verb], None, seq![], "none"@, mutability, "offline-safe"@)
}

fn native(id: &str, verb: &str, mutability: &str) -> (r: Step)
    ensures
        r@ == native_step(id@, verb@, mutability@),
{
    mk_step(string_from(id), "native", "luna", one(verb), None, none(), "none", mutability, "offline-safe")
}

/// One read-only `<tool> outdated` step per toolchain, in report order.
pub open spec fn outdated_steps() -> Seq<StepView> {
    toolchain_order().map_values(|k: ToolchainKind| step_v("outdated:"@ + toolchain_label(k), toolchain_label(k),
        toolchain_label(k), seq!["outdated"@], None, seq![], "none"@, "read-only"@, "network-required"@))
}

/// `proto outdated --update` first, then `<tool> update` for every other
/// toolchain, each after the proto step.
pub open spec fn update_steps() -> Seq<StepView> {
    seq![step_v("update:proto"@, "proto"@, "proto"@, seq!["outdated"@, "--update"@], None, seq![], "none"@,
        "install"@, "network-required"@)] + toolchain_order().skip(1).map_values(|k: ToolchainKind| step_v(
        "update:"@ + toolchain_label(k), toolchain_label(k), toolchain_label(k), seq!["update"@], None,
        seq!["update:proto"@], "none"@, "install"@, "network-required"@))
}

fn plan_outdated() -> (r: Vec<Step>)
    ensures
        step_views(r@) == outdated_steps(),
{
    let order = ToolchainKind::order();
    let mut steps: Vec<Step> = Vec::new();
    let mut i: usize = 0;
    while i < 5
        invariant
            order@ == toolchain_order(),
            i <= 5,
            step_views(steps@) == outdated_steps().take(i as int),
        decreases 5 - i,
    {
        let k = order[i];
        let label = k.label();
        push_step(&mut steps, mk_step(crate::config::prefixed("outdated:", label), label, label, one("outdated"),
            None, none(), "none", "read-only", "network-required"));
        assert(step_views(steps@) =~= outdated_steps().take(i + 1));
        i = i + 1;
    }
    assert(outdated_steps().take(5) =~= outdated_steps());
    steps
}

fn plan_update() -> (r: Vec<Step>)
    ensures
        step_views(r@) == update_steps(),
{
    let order = ToolchainKind::order();
    let mut steps: Vec<Step> = Vec::new();
    push_step(&mut steps, mk_step(string_from("update:proto"), "proto", "proto", two("outdated", "--update"), None,
        none(), "none", "install", "network-required"));
    let mut i: usize = 1;
    while i < 5
        invariant
            order@ == toolchain_order(),
            1 <= i <= 5,
            step_views(steps@) == update_steps().take(i as int),
        decreases 5 - i,
    {
        let k = order[i];
        let label = k.label();
        push_step(&mut steps, mk_step(crate::config::prefixed("update:", label), label, label, one("update"), None,
            one("update:proto"), "none", "install", "network-required"));
        assert(step_views(steps@) =~= update_steps().take(i + 1));
        i = i + 1;
    }
    assert(update_steps().take(5) =~= update_steps());
    steps
}

/// The steps for a target verb, or `None` when the planner does not know it.
pub open spec fn target_steps(config: LunaConfig, facts: SyncFacts, target: Seq<char>) -> Option<Seq<StepView>> {
    if target == "sync"@ || target == "install"@ {
        Some(sync_steps(config, facts))
    } else if target == "build"@ {
        Some(moon_task_steps(config, "build"@, "local"@, "generate"@, "offline-safe"@))
    } else if target == "dev"@ {
        Some(moon_task_steps(config, "dev"@, "none"@, "read-only"@, "network-required"@))
    } else if target == "test"@ {
        Some(moon_task_steps(config, "test"@, "local"@, "read-only"@, "offline-safe"@))
    } else if target == "lint"@ {
        Some(seq![native_step("lint:all"@, "lint"@, "read-only"@)])
    } else if target == "format"@ {
        Some(seq![native_step("format:all"@, "format"@, "lock-only"@)])
    } else if target == "typecheck"@ {
        Some(seq![native_step("typecheck:all"@, "typecheck"@, "read-only"@)])
    } else if target == "check"@ {
        Some(seq![native_step("lint:all"@, "lint"@, "read-only"@), native_step("typecheck:all"@, "typecheck"@, "read-only"@)])
    } else if target == "fix"@ {
        Some(seq![native_step("fix:all"@, "fix"@, "install"@)])
    } else if target == "outdated"@ {
        Some(outdated_steps())
    } else if target == "update"@ {
        Some(update_steps())
    } else {
        None
    }
}

/// Build a plan for the given Luna target verb (e.g. "build", "test", "lint").
pub fn build_plan(root: &str, facts: &SyncFacts, config: &LunaConfig, target: &str) -> (r: Result<Plan, PlanError>)
    ensures
        match r {
            Ok(plan) => target_steps(*config, *facts, target@) == Some(plan@.steps) && plan@.target == target@
                && plan@.workspace_root == root@ && plan@.fingerprint is None,
            Err(PlanError::UnknownTarget(t)) => target_steps(*config, *facts, target@) is None && t@ == target@,
        },
{
    let steps = if str_eq(target, "sync") || str_eq(target, "install") {
        plan_sync(config, facts)
    } else if str_eq(target, "build") {
        plan_moon_task(config, "build", "local", "generate", "offline-safe")
    } else if str_eq(target, "dev") {
        plan_moon_task(config, "dev", "none", "read-only", "network-required")
    } else if str_eq(target, "test") {
        plan_moon_task(config, "test", "local", "read-only", "offline-safe")
    } else if str_eq(target, "lint") {
        let mut v: Vec<Step> = Vec::new();
        push_step(&mut v, native("lint:all", "lint", "read-only"));
        v
    } else if str_eq(target, "format") {
        let mut v: Vec<Step> = Vec::new();
        push_step(&mut v, native("format:all", "format", "lock-only"));
        v
    } else if str_eq(target, "typecheck") {
        let mut v: Vec<Step> = Vec::new();
        push_step(&mut v, native("typecheck:all", "typecheck", "read-only"));
        v
    } else if str_eq(target, "check") {
        let mut v: Vec<Step> = Vec::new();
        push_step(&mut v, native("lint:all", "lint", "read-only"));
        push_step(&mut v, native("typecheck:all", "typecheck", "read-only"));
        v
    } else if str_eq(target, "fix") {
        let mut v: Vec<Step> = Vec::new();
        push_step(&mut v, native("fix:all", "fix", "install"));
        v
    } else if str_eq(target, "outdated") {
        plan_outdated()
    } else if str_eq(target, "update") {
        plan_update()
    } else {
        return Err(PlanError::UnknownTarget(string_from(target)));
    };
    assert(step_views(steps@) =~= target_steps(*config, *facts, target@).unwrap());
    Ok(Plan { target: string_from(target), workspace_root: string_from(root), steps, fingerprint: None })
}

// ---------------------------------------------------------------------------
// Dependency order
// ---------------------------------------------------------------------------

/// The ids of a list of steps.
pub open spec fn step_ids(steps: Seq<StepView>) -> Seq<Seq<char>> {
    steps.map_values(|s: StepView| s.id)
}

/// Every dependency of every step names a step that comes before it.
pub open spec fn deps_ordered(steps: Seq<StepView>) -> bool {
    forall|i: int, k: int|
        0 <= i < steps.len() && 0 <= k < steps[i].depends_on.len() ==> #[trigger] step_ids(steps.take(i)).contains(
            steps[i].depends_on[k],
        )
}

proof fn lemma_push_ordered(s: Seq<StepView>, x: StepView)
    requires
        deps_ordered(s),
        forall|k: int| 0 <= k < x.depends_on.len() ==> step_ids(s).contains(#[trigger] x.depends_on[k]),
    ensures
        deps_ordered(s.push(x)),
        step_ids(s.push(x)) == step_ids(s).push(x.id),
{
    let t = s.push(x);
    assert(step_ids(t) =~= step_ids(s).push(x.id));
    assert forall|i: int, k: int| 0 <= i < t.len() && 0 <= k < t[i].depends_on.len() implies #[trigger] step_ids(
        t.take(i),
    ).contains(t[i].depends_on[k]) by {
        if i < s.len() {
            assert(t.take(i) =~= s.take(i));
            assert(step_ids(s.take(i)).contains(s[i].depends_on[k]));
        } else {
            assert(t.take(i) =~= s);
            assert(step_ids(s).contains(x.depends_on[k]));
        }
    }
}

proof fn lemma_push_if_ordered(s: Seq<StepView>, c: bool, x: StepView)
    requires
        deps_ordered(s),
        c ==> forall|k: int| 0 <= k < x.depends_on.len() ==> step_ids(s).contains(#[trigger] x.depends_on[k]),
    ensures
        deps_ordered(push_if(s, c, x)),
        step_ids(push_if(s, c, x)) == push_if(step_ids(s), c, x.id),
{
    if c {
        lemma_push_ordered(s, x);
    }
}

proof fn lemma_contains_push<A>(s: Seq<A>, c: bool, x: A, y: A)
    ensures
        s.contains(y) ==> push_if(s, c, x).contains(y),
        c ==> push_if(s, c, x).contains(x),
{
    if c {
        if s.contains(y) {
            let j = choose|j: int| 0 <= j < s.len() && s[j] == y;
            assert(s.push(x)[j] == y);
        }
        assert(s.push(x)[s.len() as int] == x);
    }
}

/// Every dependency of every step of the sync plan names an earlier step, for
/// every configuration and workspace.
pub proof fn lemma_sync_plan_deps_ordered(config: LunaConfig, facts: SyncFacts)
    ensures
        deps_ordered(sync_steps(config, facts)),
{
    let np = needs_proto(config, facts);
    let moon = config.compat.moon.enabled;
    let pw = pixi_wanted(config, facts);
    let p = step_v("proto:install"@, "proto"@, "proto"@, seq!["install"@], None, seq![], "none"@, "install"@,
        "network-required"@);
    let s0: Seq<StepView> = seq![];
    assert(deps_ordered(s0));
    lemma_push_if_ordered(s0, np, p);
    let s1 = push_if(s0, np, p);
    let ids1 = step_ids(s1);
    lemma_contains_push(step_ids(s0), np, "proto:install"@, "proto:install"@);
    let b = step_v("moon:build-cli"@, "moon"@, "moon"@, seq!["run"@, "cli:build"@], None,
        if np { seq!["proto:install"@] } else { seq![] }, "local"@, "generate"@, "network-required"@);
    lemma_push_if_ordered(s1, moon, b);
    let s2 = push_if(s1, moon, b);
    lemma_contains_push(ids1, moon, "moon:build-cli"@, "proto:install"@);
    let ins = step_v("moon:install-cli"@, "moon"@, "moon"@, seq!["run"@, "cli:install"@], None,
        seq!["moon:build-cli"@], "none"@, "install"@, "offline-safe"@);
    lemma_push_if_ordered(s2, moon, ins);
    let s3 = push_if(s2, moon, ins);
    lemma_contains_push(step_ids(s2), moon, "moon:install-cli"@, "proto:install"@);
    lemma_contains_push(step_ids(s2), moon, "moon:install-cli"@, "moon:install-cli"@);
    let px = step_v("pixi:sync"@, "pixi"@, "pixi"@, seq!["install"@], Some("default"@),
        if moon { seq!["moon:install-cli"@] } else if np { seq!["proto:install"@] } else { seq![] },
        "none"@, "install"@, "network-required"@);
    lemma_push_if_ordered(s3, pw, px);
    let s4 = push_if(s3, pw, px);
    let ids4 = step_ids(s4);
    lemma_contains_push(step_ids(s3), pw, "pixi:sync"@, "pixi:sync"@);
    let pd = pixi_dep(config, facts);
    let bn = step_v("bun:install"@, "bun"@, "bun"@, seq!["install"@], None, pd, "local"@, "install"@, "network-required"@);
    lemma_push_if_ordered(s4, facts.bun_manifest, bn);
    let s5 = push_if(s4, facts.bun_manifest, bn);
    lemma_contains_push(ids4, facts.bun_manifest, "bun:install"@, "pixi:sync"@);
    let u = step_v("uv:sync"@, "uv"@, "uv"@, seq!["sync"@], None, pd, "local"@, "install"@, "network-required"@);
    lemma_push_if_ordered(s5, facts.uv_projects, u);
    let s6 = push_if(s5, facts.uv_projects, u);
    lemma_contains_push(step_ids(s5), facts.uv_projects, "uv:sync"@, "pixi:sync"@);
    let cg = step_v("cargo:build"@, "cargo"@, "cargo"@, seq!["build"@], None, pd, "local"@, "generate"@,
        "network-required"@);
    lemma_push_if_ordered(s6, facts.cargo_manifest, cg);
    let s7 = push_if(s6, facts.cargo_manifest, cg);
    lemma_contains_push(step_ids(s6), facts.cargo_manifest, "cargo:build"@, "pixi:sync"@);
    let gw = step_v("go:work-sync"@, "go"@, "go"@, seq!["work"@, "sync"@], None, pd, "none"@, "lock-only"@,
        "network-required"@);
    lemma_push_if_ordered(s7, facts.go_workspace, gw);
    let s8 = push_if(s7, facts.go_workspace, gw);
    lemma_contains_push(step_ids(s7), facts.go_workspace, "go:work-sync"@, "go:work-sync"@);
    let ws = step_v("moon:web-setup"@, "moon"@, "moon"@, seq!["run"@, "web:setup"@], None, seq!["go:work-sync"@],
        "local"@, "install"@, "network-required"@);
    lemma_push_if_ordered(s8, facts.go_workspace, ws);
}

/// Every dependency of every step of every plan the planner builds names an
/// earlier step of that plan.
pub proof fn lemma_plan_deps_ordered(config: LunaConfig, facts: SyncFacts, target: Seq<char>)
    ensures
        target_steps(config, facts, target) matches Some(steps) ==> deps_ordered(steps),
{
    lemma_sync_plan_deps_ordered(config, facts);
    let u = update_steps();
    assert forall|i: int, k: int| 0 <= i < u.len() && 0 <= k < u[i].depends_on.len() implies #[trigger] step_ids(
        u.take(i),
    ).contains(u[i].depends_on[k]) by {
        assert(step_ids(u.take(i))[0] == "update:proto"@);
    }
}

// ---------------------------------------------------------------------------
// Executing a plan, one step at a time
// ---------------------------------------------------------------------------

/// What happens to a plan step when the plan is executed.
pub enum StepDecision {
    /// A dependency has not completed: execution stops with an error.
    MissingDependency(String),
    /// Dry run (or a non-applying mode): the step is only printed, then counted as done.
    DryRun,
    /// The mode forbids this mutating step: execution stops with an error.
    BlockedMutation,
    /// Offline mode forbids this network step: execution stops with an error.
    BlockedNetwork,
    /// A local cache entry exists: the step is counted as done without running.
    CacheHit,
    /// The step runs.
    Run,
}

/// Whether a step takes part in the local step cache.
pub open spec fn uses_cache_spec(step: StepView, no_cache: bool) -> bool {
    step.cacheability == "local"@ && !no_cache
}

/// Whether a step takes part in the local step cache.
pub fn uses_cache(step: &Step, no_cache: bool) -> (r: bool)
    ensures
        r == uses_cache_spec(step@, no_cache),
{
    str_eq(step.cacheability.as_str(), "local") && !no_cache
}

/// What follows a step that ran, given its exit code.
pub enum StepOutcome {
    /// The step failed: execution stops and returns its exit code.
    Stop(i32),
    /// The step succeeded; when `write_cache` is set, its cache entry is written.
    Done { write_cache: bool },
}

/// What follows a step that ran: a nonzero exit code stops execution with that
/// code; a zero one completes the step, and writes its cache entry exactly when
/// the step takes part in the local step cache.
pub fn after_run(step: &Step, code: i32, no_cache: bool) -> (r: StepOutcome)
    ensures
        code != 0 ==> r == StepOutcome::Stop(code),
        code == 0 ==> r == (StepOutcome::Done { write_cache: uses_cache_spec(step@, no_cache) }),
{
    if code != 0 {
        StepOutcome::Stop(code)
    } else {
        StepOutcome::Done { write_cache: uses_cache(step, no_cache) }
    }
}

/// Whether a step with this decision counts as completed once it is handled
/// (a step that runs counts once it has succeeded).
pub open spec fn completes_spec(decision: StepDecisionView) -> bool {
    match decision {
        StepDecisionView::DryRun | StepDecisionView::CacheHit | StepDecisionView::Run => true,
        _ => false,
    }
}

/// Whether a step with this decision counts as completed once it is handled.
pub fn completes(decision: &StepDecision) -> (r: bool)
    ensures
        r == completes_spec(decision@),
{
    match decision {
        StepDecision::DryRun | StepDecision::CacheHit | StepDecision::Run => true,
        _ => false,
    }
}

/// Record `step` as completed: its id is appended to the completed ids.
pub fn record_completed(completed: &mut Vec<String>, step: &Step)
    ensures
        views(final(completed)@) == views(old(completed)@).push(step@.id),
{
    completed.push(step.id.clone());
    proof {
        assert(views(completed@) =~= views(old(completed)@).push(step@.id));
    }
}

/// The first dependency of `step` that is not among `completed`, if any.
pub open spec fn first_missing(deps: Seq<Seq<char>>, completed: Seq<Seq<char>>) -> Option<Seq<char>>
    decreases deps.len(),
{
    if deps.len() == 0 {
        None
    } else if !completed.contains(deps[0]) {
        Some(deps[0])
    } else {
        first_missing(deps.drop_first(), completed)
    }
}

/// The decision for one step, in the order the executor applies its checks:
/// dependencies, dry run, mutation, network, cache.
pub open spec fn decide_step_spec(
    mode: ExecutionMode,
    dry_run: bool,
    completed: Seq<Seq<char>>,
    step: StepView,
    cache_hit: bool,
    no_cache: bool,
) -> StepDecisionView {
    match first_missing(step.depends_on, completed) {
        Some(d) => StepDecisionView::MissingDependency(d),
        None => if dry_run || mode == ExecutionMode::Inspect || mode == ExecutionMode::Plan {
            StepDecisionView::DryRun
        } else if !allows_mutation_spec(mode) && step.mutability != "read-only"@ {
            StepDecisionView::BlockedMutation
        } else if !allows_network_spec(mode, step) {
            StepDecisionView::BlockedNetwork
        } else if uses_cache_spec(step, no_cache) && cache_hit {
            StepDecisionView::CacheHit
        } else {
            StepDecisionView::Run
        },
    }
}

/// The model of a step decision.
pub enum StepDecisionView {
    MissingDependency(Seq<char>),
    DryRun,
    BlockedMutation,
    BlockedNetwork,
    CacheHit,
    Run,
}

impl View for StepDecision {
    type V = StepDecisionView;

    open spec fn view(&self) -> StepDecisionView {
        match self {
            StepDecision::MissingDependency(d) => StepDecisionView::MissingDependency(d@),
            StepDecision::DryRun => StepDecisionView::DryRun,
            StepDecision::BlockedMutation => StepDecisionView::BlockedMutation,
            StepDecision::BlockedNetwork => StepDecisionView::BlockedNetwork,
            StepDecision::CacheHit => StepDecisionView::CacheHit,
            StepDecision::Run => StepDecisionView::Run,
        }
    }
}

fn contains_string(v: &Vec<String>, s: &String) -> (r: bool)
    ensures
        r == views(v@).contains(s@),
{
    let mut i: usize = 0;
    while i < v.len()
        invariant
            i <= v@.len(),
            forall|j: int| 0 <= j < i ==> v@[j]@ != s@,
        decreases v@.len() - i,
    {
        if str_eq(v[i].as_str(), s.as_str()) {
            assert(views(v@)[i as int] == s@);
            return true;
        }
        i = i + 1;
    }
    proof {
        if views(v@).contains(s@) {
            let j = choose|j: int| 0 <= j < views(v@).len() && views(v@)[j] == s@;
            assert(v@[j]@ == s@);
        }
    }
    false
}

/// With every dependency completed, no step is missing a dependency.
proof fn lemma_first_missing_none(deps: Seq<Seq<char>>, completed: Seq<Seq<char>>)
    requires
        forall|k: int| 0 <= k < deps.len() ==> completed.contains(#[trigger] deps[k]),
    ensures
        first_missing(deps, completed) is None,
    decreases deps.len(),
{
    if deps.len() > 0 {
        assert(completed.contains(deps[0]));
        assert forall|k: int| 0 <= k < deps.drop_first().len() implies completed.contains(
            #[trigger] deps.drop_first()[k],
        ) by {
            assert(deps.drop_first()[k] == deps[k + 1]);
        }
        lemma_first_missing_none(deps.drop_first(), completed);
    }
}

/// A step whose dependencies have all completed runs in the apply and the
/// networked modes when it is not a dry run and its cache entry is absent,
/// whatever it mutates and whatever network access it needs.
pub proof fn lemma_apply_and_networked_run_ready_steps(
    mode: ExecutionMode,
    completed: Seq<Seq<char>>,
    step: StepView,
    no_cache: bool,
)
    requires
        mode == ExecutionMode::Apply || mode == ExecutionMode::Networked,
        forall|k: int| 0 <= k < step.depends_on.len() ==> completed.contains(#[trigger] step.depends_on[k]),
    ensures
        decide_step_spec(mode, false, completed, step, false, no_cache) == StepDecisionView::Run,
{
    lemma_first_missing_none(step.depends_on, completed);
}

/// In the offline mode a ready step that is not read-only is blocked as a
/// mutation; in the inspect and plan modes a ready step is only printed.
pub proof fn lemma_offline_inspect_plan_do_not_mutate(
    mode: ExecutionMode,
    dry_run: bool,
    completed: Seq<Seq<char>>,
    step: StepView,
    cache_hit: bool,
    no_cache: bool,
)
    requires
        forall|k: int| 0 <= k < step.depends_on.len() ==> completed.contains(#[trigger] step.depends_on[k]),
    ensures
        mode == ExecutionMode::Offline && !dry_run && step.mutability != "read-only"@ ==> decide_step_spec(
            mode,
            dry_run,
            completed,
            step,
            cache_hit,
            no_cache,
        ) == StepDecisionView::BlockedMutation,
        (mode == ExecutionMode::Inspect || mode == ExecutionMode::Plan) ==> decide_step_spec(
            mode,
            dry_run,
            completed,
            step,
            cache_hit,
            no_cache,
        ) == StepDecisionView::DryRun,
{
    lemma_first_missing_none(step.depends_on, completed);
}

/// Decide what to do with `step`, given the ids of the completed steps and
/// whether its cache entry exists (consulted only when the step uses the cache).
pub fn decide_step(
    mode: ExecutionMode,
    dry_run: bool,
    completed: &Vec<String>,
    step: &Step,
    cache_hit: bool,
    no_cache: bool,
) -> (r: StepDecision)
    ensures
        r@ == decide_step_spec(mode, dry_run, views(completed@), step@, cache_hit, no_cache),
{
    let mut k: usize = 0;
    assert(step@.depends_on.skip(0) =~= step@.depends_on);
    while k < step.depends_on.len()
        invariant
            k <= step.depends_on@.len(),
            first_missing(step@.depends_on, views(completed@)) == first_missing(step@.depends_on.skip(k as int), views(completed@)),
        decreases step.depends_on@.len() - k,
    {
        let dep = &step.depends_on[k];
        assert(step@.depends_on.skip(k as int)[0] == dep@);
        if !contains_string(completed, dep) {
            return StepDecision::MissingDependency(dep.clone());
        }
        assert(step@.depends_on.skip(k as int).drop_first() =~= step@.depends_on.skip(k + 1));
        k = k + 1;
    }
    assert(step@.depends_on.skip(k as int) =~= seq![]);
    if dry_run || mode == ExecutionMode::Inspect || mode == ExecutionMode::Plan {
        return StepDecision::DryRun;
    }
    if !mode.allows_mutation() && !str_eq(step.mutability.as_str(), "read-only") {
        return StepDecision::BlockedMutation;
    }
    if !mode.allows_network(step) {
        return StepDecision::BlockedNetwork;
    }
    if uses_cache(step, no_cache) && cache_hit {
        return StepDecision::CacheHit;
    }
    StepDecision::Run
}

/// The error message for a decision that stops execution, if it stops it.
pub fn decision_error(decision: &StepDecision, step: &Step) -> (r: Option<String>)
    ensures
        match decision@ {
            StepDecisionView::MissingDependency(d) => r matches Some(m) && m@ == "plan step "@ + step@.id
                + " depends on "@ + d + " which has not completed"@,
            StepDecisionView::BlockedMutation => r matches Some(m) && m@ == "execution mode blocks mutating step "@
                + step@.id,
            StepDecisionView::BlockedNetwork => r matches Some(m) && m@ == "offline mode blocks network step "@
                + step@.id,
            _ => r is None,
        },
{
    match decision {
        StepDecision::MissingDependency(d) => {
            let mut m = string_from("plan step ");
            push_str(&mut m, step.id.as_str());
            push_str(&mut m, " depends on ");
            push_str(&mut m, d.as_str());
            push_str(&mut m, " which has not completed");
            Some(m)
        },
        StepDecision::BlockedMutation => Some(crate::config::prefixed("execution mode blocks mutating step ", step.id.as_str())),
        StepDecision::BlockedNetwork => Some(crate::config::prefixed("offline mode blocks network step ", step.id.as_str())),
        _ => None,
    }
}

/// A decision never runs a step before all of its dependencies completed.
pub proof fn lemma_runs_only_after_dependencies(
    mode: ExecutionMode,
    dry_run: bool,
    completed: Seq<Seq<char>>,
    step: StepView,
    cache_hit: bool,
    no_cache: bool,
)
    ensures
        decide_step_spec(mode, dry_run, completed, step, cache_hit, no_cache) is Run ==> forall|k: int|
            0 <= k < step.depends_on.len() ==> completed.contains(#[trigger] step.depends_on[k]),
{
    lemma_first_missing(step.depends_on, completed);
}

proof fn lemma_first_missing(deps: Seq<Seq<char>>, completed: Seq<Seq<char>>)
    ensures
        first_missing(deps, completed) is None ==> forall|k: int| 0 <= k < deps.len() ==> completed.contains(
            #[trigger] deps[k],
        ),
    decreases deps.len(),
{
    if deps.len() > 0 {
        lemma_first_missing(deps.drop_first(), completed);
        if first_missing(deps, completed) is None {
            assert forall|k: int| 0 <= k < deps.len() implies completed.contains(#[trigger] deps[k]) by {
                if k > 0 {
                    assert(deps[k] == deps.drop_first()[k - 1]);
                }
            }
        }
    }
}

} // verus!
