//! `luna apply`: running a plan written earlier, refusing stale ones.
use vstd::prelude::*;
use crate::config::LunaConfig;
use crate::num::decimal;
use crate::planner::Plan;
use crate::text::{string_from, push_str, starts_with, str_eq, chars_of};

verus! {

/// The fingerprint of a plan: its target, its number of steps and the lock
/// ledger's fingerprint, separated by `::`.
pub open spec fn plan_fingerprint_spec(target: Seq<char>, steps: nat, ledger: Seq<char>) -> Seq<char> {
    target + "::"@ + decimal(steps) + "::"@ + ledger
}

/// The fingerprint of a plan, given the lock ledger's fingerprint (empty when
/// there is no ledger).
pub fn plan_fingerprint(plan: &Plan, ledger: &str) -> (r: String)
    ensures
        r@ == plan_fingerprint_spec(plan.target@, plan.steps@.len(), ledger@),
{
    let mut r = string_from(plan.target.as_str());
    push_str(&mut r, "::");
    crate::num::push_decimal(&mut r, plan.steps.len() as u64);
    push_str(&mut r, "::");
    push_str(&mut r, ledger);
    r
}

/// Whether a plan may run: it must carry a fingerprint, and that fingerprint
/// must match the workspace's current one.
pub fn check_fingerprint(current: &str, stored: Option<&str>) -> (r: Result<(), String>)
    ensures
        match stored {
            None => r matches Err(e) && e@ == "plan file missing fingerprint — re-run `luna plan --out`"@,
            Some(s) => if s@ == current@ {
                r is Ok
            } else {
                r matches Err(e) && e@ == "stale plan: workspace manifests changed since plan was written"@
            },
        },
{
    match stored {
        None => Err(string_from("plan file missing fingerprint — re-run `luna plan --out`")),
        Some(s) => if str_eq(s, current) {
            Ok(())
        } else {
            Err(string_from("stale plan: workspace manifests changed since plan was written"))
        },
    }
}

/// `b` appended to the path `a`: an absolute `b` replaces `a`, an empty `a`
/// gives `b`, and otherwise one `/` separates them.
pub open spec fn join_path(a: Seq<char>, b: Seq<char>) -> Seq<char> {
    if starts_with(b, "/"@) || a.len() == 0 {
        b
    } else if a.last() == '/' {
        a + b
    } else {
        a + "/"@ + b
    }
}

/// The path `b` appended to the path `a`.
pub fn join_path_exec(a: &str, b: &str) -> (r: String)
    ensures
        r@ == join_path(a@, b@),
{
    let bc = chars_of(b);
    let ac = chars_of(a);
    if crate::text::starts_with_str(bc.as_slice(), "/") || ac.len() == 0 {
        string_from(b)
    } else if ac[ac.len() - 1] == '/' {
        let mut r = string_from(a);
        push_str(&mut r, b);
        r
    } else {
        let mut r = string_from(a);
        push_str(&mut r, "/");
        push_str(&mut r, b);
        r
    }
}

/// Where `luna plan --out` writes a target's plan by default:
/// `<root>/<state dir>/plans/<target>.plan.json`.
pub fn default_plan_path(root: &str, config: &LunaConfig, target: &str) -> (r: String)
    ensures
        r@ == join_path(join_path(join_path(root@, config.state.dir@), "plans"@), target@ + ".plan.json"@),
{
    let a = join_path_exec(root, config.state.dir.as_str());
    let b = join_path_exec(a.as_str(), "plans");
    let mut file = string_from(target);
    push_str(&mut file, ".plan.json");
    join_path_exec(b.as_str(), file.as_str())
}

} // verus!
