//! Execution modes: which plan steps a run may execute.
use vstd::prelude::*;
use crate::cli::GlobalArgs;
use crate::config::LunaConfig;
use crate::planner::{Step, StepView};
use crate::text::{str_eq, string_from, push_str};

verus! {

/// How far a run may go: inspect and plan only print, apply and networked run
/// every step, offline runs steps that need no network.
#[derive(Clone, Copy, PartialEq, Eq, Structural, Debug)]
pub enum ExecutionMode {
    Inspect,
    Plan,
    Apply,
    Offline,
    Networked,
}

/// The mode a `--mode` value selects; unknown values select `Inspect`.
pub open spec fn parse_mode_spec(s: Seq<char>) -> ExecutionMode {
    if s == "plan"@ {
        ExecutionMode::Plan
    } else if s == "apply"@ {
        ExecutionMode::Apply
    } else if s == "offline"@ {
        ExecutionMode::Offline
    } else if s == "networked"@ {
        ExecutionMode::Networked
    } else {
        ExecutionMode::Inspect
    }
}

/// Modes that may run mutating steps.
pub open spec fn allows_mutation_spec(mode: ExecutionMode) -> bool {
    mode == ExecutionMode::Apply || mode == ExecutionMode::Networked
}

/// Exactly the apply and the networked modes may run mutating steps: inspect,
/// plan and offline may not.
pub proof fn lemma_mutating_modes()
    ensures
        allows_mutation_spec(ExecutionMode::Apply),
        allows_mutation_spec(ExecutionMode::Networked),
        !allows_mutation_spec(ExecutionMode::Inspect),
        !allows_mutation_spec(ExecutionMode::Plan),
        !allows_mutation_spec(ExecutionMode::Offline),
{
}

/// Offline mode refuses steps that need the network.
pub open spec fn allows_network_spec(mode: ExecutionMode, step: StepView) -> bool {
    mode == ExecutionMode::Offline ==> step.safety != "network-required"@
}

/// The debug name of a mode.
pub open spec fn mode_name(mode: ExecutionMode) -> Seq<char> {
    match mode {
        ExecutionMode::Inspect => "Inspect"@,
        ExecutionMode::Plan => "Plan"@,
        ExecutionMode::Apply => "Apply"@,
        ExecutionMode::Offline => "Offline"@,
        ExecutionMode::Networked => "Networked"@,
    }
}

impl ExecutionMode {
    /// The mode for a CLI run: `--mode` when given, otherwise `Apply`
    /// (`[agent].safe_mode_default` is for MCP only).
    pub fn from_config_and_flag(_config: &LunaConfig, global: &GlobalArgs) -> (r: Self)
        ensures
            r == match global.mode {
                Some(m) => parse_mode_spec(m@),
                None => ExecutionMode::Apply,
            },
    {
        match &global.mode {
            Some(mode) => Self::parse_mode(mode.as_str()),
            None => ExecutionMode::Apply,
        }
    }

    /// The mode for agent (MCP) runs: `[agent].safe_mode_default`.
    pub fn from_agent_config(config: &LunaConfig) -> (r: Self)
        ensures
            r == parse_mode_spec(config.agent.safe_mode_default@),
    {
        Self::parse_mode(config.agent.safe_mode_default.as_str())
    }

    /// The mode a `--mode` value selects; unknown values select `Inspect`.
    pub fn parse_mode(s: &str) -> (r: Self)
        ensures
            r == parse_mode_spec(s@),
    {
        if str_eq(s, "plan") {
            ExecutionMode::Plan
        } else if str_eq(s, "apply") {
            ExecutionMode::Apply
        } else if str_eq(s, "offline") {
            ExecutionMode::Offline
        } else if str_eq(s, "networked") {
            ExecutionMode::Networked
        } else {
            ExecutionMode::Inspect
        }
    }

    /// Whether this mode may run mutating steps.
    pub fn allows_mutation(self) -> (r: bool)
        ensures
            r == allows_mutation_spec(self),
    {
        self == ExecutionMode::Apply || self == ExecutionMode::Networked
    }

    /// Whether this mode may run `step` as far as network access goes.
    pub fn allows_network(self, step: &Step) -> (r: bool)
        ensures
            r == allows_network_spec(self, step@),
    {
        if self == ExecutionMode::Offline {
            return !str_eq(step.safety.as_str(), "network-required");
        }
        true
    }

    /// The debug name of this mode.
    pub fn name(self) -> (r: &'static str)
        ensures
            r@ == mode_name(self),
    {
        match self {
            ExecutionMode::Inspect => "Inspect",
            ExecutionMode::Plan => "Plan",
            ExecutionMode::Apply => "Apply",
            ExecutionMode::Offline => "Offline",
            ExecutionMode::Networked => "Networked",
        }
    }
}

/// Why a step is not executed, in the order the checks apply.
pub open spec fn skip_reason(mode: ExecutionMode, step: StepView, dry_run: bool) -> Option<Seq<char>> {
    if dry_run || mode == ExecutionMode::Inspect || mode == ExecutionMode::Plan {
        Some("dry-run: skip step "@ + step.id)
    } else if !allows_mutation_spec(mode) && step.mutability != "read-only"@ {
        Some("mode "@ + mode_name(mode) + " blocks mutating step "@ + step.id)
    } else if !allows_network_spec(mode, step) {
        Some("offline mode blocks network step "@ + step.id)
    } else {
        None
    }
}

/// `Ok` when `step` may execute under `mode`; otherwise the reason it may not.
pub fn should_execute_step(mode: ExecutionMode, step: &Step, dry_run: bool) -> (r: Result<(), String>)
    ensures
        match r {
            Ok(()) => skip_reason(mode, step@, dry_run) is None,
            Err(m) => skip_reason(mode, step@, dry_run) == Some(m@),
        },
{
    if dry_run || mode == ExecutionMode::Inspect || mode == ExecutionMode::Plan {
        return Err(crate::config::prefixed("dry-run: skip step ", step.id.as_str()));
    }
    if !mode.allows_mutation() && !str_eq(step.mutability.as_str(), "read-only") {
        let mut m = string_from("mode ");
        push_str(&mut m, mode.name());
        push_str(&mut m, " blocks mutating step ");
        push_str(&mut m, step.id.as_str());
        return Err(m);
    }
    if !mode.allows_network(step) {
        return Err(crate::config::prefixed("offline mode blocks network step ", step.id.as_str()));
    }
    Ok(())
}

} // verus!
