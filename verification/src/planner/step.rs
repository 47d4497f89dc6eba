//! Plan steps, plans, and the cache key of a step.
use vstd::prelude::*;
use crate::text::{views, string_from, join, join_strings, push_str, push_char};
use crate::deps::model::opt_view;

verus! {

/// A single step in an execution plan.
pub struct Step {
    /// Stable identifier for this step (e.g. "pixi:sync", "moon:build").
    pub id: String,
    /// Which adapter/backend owns this step.
    pub adapter: String,
    /// Program to execute.
    pub program: String,
    /// Arguments to the program.
    pub args: Vec<String>,
    /// Working directory override (`None` = workspace root).
    pub cwd: Option<String>,
    /// Environment selector (e.g. "default", "ci", "docs").
    pub env_selector: Option<String>,
    /// IDs of steps this step depends on.
    pub depends_on: Vec<String>,
    /// Cache mode: "none", "local", "remote", "local-then-remote".
    pub cacheability: String,
    /// Mutability: "read-only", "lock-only", "install", "generate".
    pub mutability: String,
    /// Safety: "offline-safe", "network-required", "privileged".
    pub safety: String,
}

/// The model of a step.
pub struct StepView {
    pub id: Seq<char>,
    pub adapter: Seq<char>,
    pub program: Seq<char>,
    pub args: Seq<Seq<char>>,
    pub cwd: Option<Seq<char>>,
    pub env_selector: Option<Seq<char>>,
    pub depends_on: Seq<Seq<char>>,
    pub cacheability: Seq<char>,
    pub mutability: Seq<char>,
    pub safety: Seq<char>,
}

impl View for Step {
    type V = StepView;

    open spec fn view(&self) -> StepView {
        StepView {
            id: self.id@,
            adapter: self.adapter@,
            program: self.program@,
            args: views(self.args@),
            cwd: opt_view(self.cwd),
            env_selector: opt_view(self.env_selector),
            depends_on: views(self.depends_on@),
            cacheability: self.cacheability@,
            mutability: self.mutability@,
            safety: self.safety@,
        }
    }
}

/// The views of a list of steps.
pub open spec fn step_views(steps: Seq<Step>) -> Seq<StepView> {
    steps.map_values(|s: Step| s@)
}

/// A step run at the workspace root.
pub open spec fn step_v(
    id: Seq<char>,
    adapter: Seq<char>,
    program: Seq<char>,
    args: Seq<Seq<char>>,
    env_selector: Option<Seq<char>>,
    depends_on: Seq<Seq<char>>,
    cacheability: Seq<char>,
    mutability: Seq<char>,
    safety: Seq<char>,
) -> StepView {
    StepView { id, adapter, program, args, cwd: None, env_selector, depends_on, cacheability, mutability, safety }
}

/// Build a step run at the workspace root.
pub fn mk_step(
    id: String,
    adapter: &str,
    program: &str,
    args: Vec<String>,
    env_selector: Option<&str>,
    depends_on: Vec<String>,
    cacheability: &str,
    mutability: &str,
    safety: &str,
) -> (r: Step)
    ensures
        r@ == step_v(
            id@,
            adapter@,
            program@,
            views(args@),
            match env_selector {
                Some(e) => Some(e@),
                None => None,
            },
            views(depends_on@),
            cacheability@,
            mutability@,
            safety@,
        ),
{
    Step {
        id,
        adapter: string_from(adapter),
        program: string_from(program),
        args,
        cwd: None,
        env_selector: match env_selector {
            Some(e) => Some(string_from(e)),
            None => None,
        },
        depends_on,
        cacheability: string_from(cacheability),
        mutability: string_from(mutability),
        safety: string_from(safety),
    }
}

/// A complete execution plan for a Luna target.
pub struct Plan {
    /// The target verb this plan resolves (e.g. "build", "sync").
    pub target: String,
    /// Path of the workspace root.
    pub workspace_root: String,
    /// Ordered steps to execute.
    pub steps: Vec<Step>,
    /// Content fingerprint for stale-plan rejection (set by `plan --out`).
    pub fingerprint: Option<String>,
}

/// The model of a plan.
pub struct PlanView {
    pub target: Seq<char>,
    pub workspace_root: Seq<char>,
    pub steps: Seq<StepView>,
    pub fingerprint: Option<Seq<char>>,
}

impl View for Plan {
    type V = PlanView;

    open spec fn view(&self) -> PlanView {
        PlanView {
            target: self.target@,
            workspace_root: self.workspace_root@,
            steps: step_views(self.steps@),
            fingerprint: opt_view(self.fingerprint),
        }
    }
}

/// Cache key for a plan step, computed from the step's identity, inputs, and
/// environment state.
pub struct PlanCacheKey {
    pub step_id: String,
    pub adapter: String,
    pub normalized_command: String,
    pub manifest_hashes: Vec<String>,
    pub lockfile_hashes: Vec<String>,
    pub env_identity: String,
    pub platform_key: String,
}

/// The parts of a cache key, in fingerprint order.
pub open spec fn key_parts(k: PlanCacheKey) -> Seq<Seq<char>> {
    seq![k.step_id@, k.adapter@, k.normalized_command@, k.env_identity@, k.platform_key@] + views(
        k.manifest_hashes@,
    ) + views(k.lockfile_hashes@)
}

impl PlanCacheKey {
    /// A stable string for hashing: the parts joined with `::`.
    pub fn fingerprint(&self) -> (r: String)
        ensures
            r@ == join(key_parts(*self), "::"@),
    {
        let mut parts: Vec<String> = Vec::new();
        parts.push(self.step_id.clone());
        parts.push(self.adapter.clone());
        parts.push(self.normalized_command.clone());
        parts.push(self.env_identity.clone());
        parts.push(self.platform_key.clone());
        let ghost first = views(parts@);
        let mut i: usize = 0;
        while i < self.manifest_hashes.len()
            invariant
                i <= self.manifest_hashes@.len(),
                views(parts@) == first + views(self.manifest_hashes@.take(i as int)),
            decreases self.manifest_hashes@.len() - i,
        {
            let ghost before = views(parts@);
            parts.push(self.manifest_hashes[i].clone());
            proof {
                assert(views(parts@) =~= before.push(self.manifest_hashes@[i as int]@));
                assert(views(self.manifest_hashes@.take(i + 1)) =~= views(self.manifest_hashes@.take(i as int)).push(self.manifest_hashes@[i as int]@));
            }
            i = i + 1;
        }
        proof {
            assert(self.manifest_hashes@.take(self.manifest_hashes@.len() as int) =~= self.manifest_hashes@);
        }
        let ghost second = views(parts@);
        let mut j: usize = 0;
        while j < self.lockfile_hashes.len()
            invariant
                j <= self.lockfile_hashes@.len(),
                views(parts@) == second + views(self.lockfile_hashes@.take(j as int)),
            decreases self.lockfile_hashes@.len() - j,
        {
            let ghost before = views(parts@);
            parts.push(self.lockfile_hashes[j].clone());
            proof {
                assert(views(parts@) =~= before.push(self.lockfile_hashes@[j as int]@));
                assert(views(self.lockfile_hashes@.take(j + 1)) =~= views(self.lockfile_hashes@.take(j as int)).push(self.lockfile_hashes@[j as int]@));
            }
            j = j + 1;
        }
        proof {
            assert(self.lockfile_hashes@.take(self.lockfile_hashes@.len() as int) =~= self.lockfile_hashes@);
            assert(views(parts@) =~= key_parts(*self));
        }
        join_strings(&parts, "::")
    }
}

/// The cache key of a step: its id, adapter, `program args...` command line,
/// the manifest hashes of the workspace, its environment (`default` when
/// unset), and the platform.
pub open spec fn cache_key_spec(step: StepView, manifest_hashes: Seq<Seq<char>>, platform: Seq<char>) -> (
    Seq<char>,
    Seq<char>,
    Seq<char>,
    Seq<Seq<char>>,
    Seq<Seq<char>>,
    Seq<char>,
    Seq<char>,
) {
    (
        step.id,
        step.adapter,
        step.program + " "@ + join(step.args, " "@),
        manifest_hashes,
        seq![],
        match step.env_selector {
            Some(e) => e,
            None => "default"@,
        },
        platform,
    )
}

/// The cache key of a step for the given manifest hashes and platform.
pub fn cache_key_for_step(step: &Step, manifest_hashes: Vec<String>, platform: String) -> (r: PlanCacheKey)
    ensures
        (r.step_id@, r.adapter@, r.normalized_command@, views(r.manifest_hashes@), views(r.lockfile_hashes@),
            r.env_identity@, r.platform_key@) == cache_key_spec(step@, views(manifest_hashes@), platform@),
{
    let mut command = step.program.clone();
    push_char(&mut command, ' ');
    let args = join_strings(&step.args, " ");
    push_str(&mut command, args.as_str());
    let env_identity = match &step.env_selector {
        Some(e) => e.clone(),
        None => string_from("default"),
    };
    let r = PlanCacheKey {
        step_id: step.id.clone(),
        adapter: step.adapter.clone(),
        normalized_command: command,
        manifest_hashes,
        lockfile_hashes: Vec::new(),
        env_identity,
        platform_key: platform,
    };
    assert(views(r.lockfile_hashes@) =~= seq![]);
    proof {
        reveal_strlit(" ");
    }
    assert(r.normalized_command@ =~= step@.program + " "@ + join(step@.args, " "@));
    r
}

} // verus!
