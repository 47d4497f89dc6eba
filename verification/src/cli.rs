//! The command-line surface: global flags, subcommands and their arguments.
//!
//! Paths are carried as `String`s.
use vstd::prelude::*;

verus! {

/// The whole parsed command line.
pub struct Cli {
    pub global: GlobalArgs,
    pub command: Commands,
}

/// Execution backend selection.
#[derive(Clone, Copy, PartialEq, Eq, Structural, Debug)]
pub enum Backend {
    Auto,
    Pixi,
    Moon,
    Native,
}

/// Flags accepted before or after any subcommand.
pub struct GlobalArgs {
    /// Verbosity count (`-v`, `-vv`, ...).
    pub verbose: u8,
    /// Silence Luna and Moon output.
    pub quiet: bool,
    /// Wrap supported package-manager commands with Socket Firewall (`sfw`).
    pub firewall: bool,
    /// Emit machine-readable JSON output.
    pub json: bool,
    /// Print the execution plan without applying changes.
    pub dry_run: bool,
    /// Enforce locked/frozen install semantics.
    pub locked: bool,
    /// Alias for `locked` with stricter CI semantics.
    pub frozen: bool,
    /// Working directory before workspace root detection.
    pub cwd: Option<String>,
    /// Selected execution backend.
    pub backend: Backend,
    /// Only run tasks affected by changed files.
    pub affected: bool,
    /// Disable planner/task caching.
    pub no_cache: bool,
    /// Emit structured JSONL trace events.
    pub trace: bool,
    /// Execution mode: inspect, plan, apply, offline, networked.
    pub mode: Option<String>,
}

/// Moon `--log` level implied by a verbosity count.
pub open spec fn log_level_spec(verbose: u8) -> Option<Seq<char>> {
    if verbose == 0 {
        None
    } else if verbose == 1 {
        Some("debug"@)
    } else {
        Some("trace"@)
    }
}

impl GlobalArgs {
    /// Moon `--log` level implied by the verbosity count, if any.
    pub fn log_level(&self) -> (r: Option<&'static str>)
        ensures
            match r {
                Some(l) => log_level_spec(self.verbose) == Some(l@),
                None => log_level_spec(self.verbose) is None,
            },
    {
        match self.verbose {
            0 => None,
            1 => Some("debug"),
            _ => Some("trace"),
        }
    }

    /// Whether installs must use locked semantics (`--locked`, `--frozen`, or the policy).
    pub fn locked_with(&self, frozen_ci: bool) -> (r: bool)
        ensures
            r == (self.locked || self.frozen || frozen_ci),
    {
        self.locked || self.frozen || frozen_ci
    }
}

/// The subcommands.
#[allow(inconsistent_fields)]
pub enum Commands {
    Build(TaskArgs),
    Dev(ProjectArgs),
    Start(ProjectArgs),
    Test(TaskArgs),
    Run(RunArgs),
    Graph { command: Option<GraphCommands> },
    Tasks,
    Projects,
    Ci(PassthroughArgs),
    Install(InstallArgs),
    Sync(SyncArgs),
    Clean,
    Lint(FixArgs),
    Format(CheckArgs),
    Typecheck,
    Check,
    Fix,
    Outdated,
    Update(UpdateArgs),
    Doctor(DoctorArgs),
    Plan(PlanArgs),
    Config { command: ConfigCommands },
    Env { command: EnvCommands },
    Task { command: TaskCommands },
    Pkg { command: PkgCommands },
    Lock,
    Sbom(SbomArgs),
    Inventory(SbomArgs),
    Migrate(MigrateArgs),
    Init(MigrateArgs),
    Apply(ApplyArgs),
    Completions(CompletionsArgs),
    Agent { command: AgentCommands },
}

/// `config` subcommands.
pub enum ConfigCommands {
    Validate,
    Print,
}

/// `env` subcommands.
pub enum EnvCommands {
    List,
    Sync(EnvSyncArgs),
    Exec(EnvExecArgs),
}

/// `task` subcommands.
pub enum TaskCommands {
    List,
    Run(TaskRunArgs),
}

/// `graph` subcommands.
pub enum GraphCommands {
    Project,
    Task(GraphTaskArgs),
}

/// `pkg` subcommands.
pub enum PkgCommands {
    Add(PkgAddArgs),
    Remove(PkgRemoveArgs),
}

/// Arguments of `build` and `test`.
pub struct TaskArgs {
    /// Limit to a single project; `None` for all application-layer projects.
    pub project: Option<String>,
}

/// Arguments of `dev` and `start`.
pub struct ProjectArgs {
    /// Limit to a single project; `None` for all application-layer projects.
    pub project: Option<String>,
}

/// Arguments of `run`.
pub struct RunArgs {
    /// Moon targets to run.
    pub targets: Vec<String>,
}

/// Extra arguments forwarded verbatim.
pub struct PassthroughArgs {
    pub args: Vec<String>,
}

/// Arguments of `lint`.
pub struct FixArgs {
    /// Apply fixes instead of reporting only.
    pub fix: bool,
}

/// Arguments of `format`.
pub struct CheckArgs {
    /// Check formatting instead of writing changes.
    pub check: bool,
}

/// Arguments of `update`.
pub struct UpdateArgs {
    /// Also apply major-version bumps.
    pub major: bool,
}

/// Arguments of `install`.
pub struct InstallArgs {
    /// Install workspace deps only; skip CLI bootstrap.
    pub workspace: bool,
}

/// Arguments of `sync`.
pub struct SyncArgs {
    /// Install workspace deps only; skip CLI bootstrap.
    pub workspace: bool,
}

/// Arguments of `plan`.
pub struct PlanArgs {
    /// Target to plan.
    pub target: String,
    /// Where to write the plan JSON, if anywhere.
    pub out: Option<String>,
}

/// Arguments of `sbom` and `inventory`.
pub struct SbomArgs {
    /// Output format: `luna` or `cyclonedx`.
    pub format: String,
}

/// Arguments of `migrate` and `init`.
pub struct MigrateArgs {
    /// Overwrite an existing `luna.toml`.
    pub force: bool,
}

/// Arguments of `apply`.
pub struct ApplyArgs {
    /// Path to a plan file written by `plan --out`.
    pub plan_file: String,
}

/// Arguments of `completions`.
pub struct CompletionsArgs {
    /// Shell name.
    pub shell: String,
}

/// `agent` subcommands.
pub enum AgentCommands {
    Mcp,
}

/// Arguments of `doctor`.
pub struct DoctorArgs {
    /// Fail on warnings.
    pub ci: bool,
}

/// Arguments of `env sync`.
pub struct EnvSyncArgs {
    /// Pixi environment name.
    pub environment: Option<String>,
}

/// Arguments of `env exec`.
pub struct EnvExecArgs {
    /// Pixi environment name.
    pub environment: Option<String>,
    /// Command and arguments to run.
    pub command: Vec<String>,
}

/// Arguments of `task run`.
pub struct TaskRunArgs {
    /// Moon target to run.
    pub target: String,
}

/// Arguments of `graph task`.
pub struct GraphTaskArgs {
    /// Task target for the graph.
    pub target: String,
}

/// Arguments of `pkg add`.
pub struct PkgAddArgs {
    /// Package name to add.
    pub package: String,
    /// Project id (defaults to the workspace root).
    pub project: Option<String>,
}

/// Arguments of `pkg remove`.
pub struct PkgRemoveArgs {
    /// Package name to remove.
    pub package: String,
    /// Project id (defaults to the workspace root).
    pub project: Option<String>,
}

} // verus!
