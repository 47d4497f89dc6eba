//! `luna doctor`: workspace health checks, their summary and the exit code.
use vstd::prelude::*;
use crate::config::{LunaConfig, RepoFiles, repo_warnings, validate_against_repo};
use crate::diagnostics::{
    DoctorCheck, DoctorStatus, CheckView, check_views, ok_check, warn_check, fail_check, ok, warn, fail, push_check,
};
use crate::num::decimal;
use crate::text::{contains, contains_str, chars_of, join, views, join_strings, string_from, push_str};

verus! {

/// How many checks had each status.
pub struct DoctorSummary {
    pub ok: usize,
    pub warn: usize,
    pub fail: usize,
}

/// The `luna doctor` report.
pub struct DoctorReport {
    pub schema_version: String,
    pub workspace_root: String,
    pub checks: Vec<DoctorCheck>,
    pub summary: DoctorSummary,
}

/// The check of the workspace root marker.
pub open spec fn root_detection_spec(luna_toml: bool, prototools: bool, package_json: bool) -> CheckView {
    if luna_toml {
        ok_check("root-detection"@, "Workspace root (luna.toml)"@)
    } else if prototools && package_json {
        warn_check(
            "root-detection"@,
            "Workspace root (legacy: .prototools + package.json)"@,
            Some("Consider adding luna.toml for canonical detection"@),
        )
    } else {
        fail_check("root-detection"@, "No recognized root marker found"@)
    }
}

/// Check which marker identifies the workspace root.
pub fn check_root_detection(luna_toml: bool, prototools: bool, package_json: bool) -> (r: DoctorCheck)
    ensures
        r@ == root_detection_spec(luna_toml, prototools, package_json),
{
    if luna_toml {
        ok("root-detection", string_from("Workspace root (luna.toml)"))
    } else if prototools && package_json {
        warn(
            "root-detection",
            string_from("Workspace root (legacy: .prototools + package.json)"),
            string_from("Consider adding luna.toml for canonical detection"),
        )
    } else {
        fail("root-detection", string_from("No recognized root marker found"))
    }
}

/// The check of `luna.toml`, given whether loading the configuration failed
/// (and why) and whether the file exists.
pub open spec fn luna_toml_spec(load_error: Option<Seq<char>>, present: bool) -> CheckView {
    match load_error {
        None => ok_check("luna-toml"@, "luna.toml valid"@),
        Some(e) => if present {
            fail_check("luna-toml"@, "luna.toml invalid: "@ + e)
        } else {
            warn_check("luna-toml"@, "luna.toml not found"@, Some("Using defaults from legacy files"@))
        },
    }
}

/// Check that `luna.toml` loads.
pub fn check_luna_toml(load_error: Option<&str>, present: bool) -> (r: DoctorCheck)
    ensures
        r@ == luna_toml_spec(
            match load_error {
                Some(e) => Some(e@),
                None => None,
            },
            present,
        ),
{
    match load_error {
        None => ok("luna-toml", string_from("luna.toml valid")),
        Some(e) => if present {
            let mut label = string_from("luna.toml invalid: ");
            push_str(&mut label, e);
            fail("luna-toml", label)
        } else {
            warn("luna-toml", string_from("luna.toml not found"), string_from("Using defaults from legacy files"))
        },
    }
}

/// One warning per drift between the configuration and the repository.
pub open spec fn config_drift_spec(config: LunaConfig, files: RepoFiles) -> Seq<CheckView> {
    repo_warnings(config, files).map_values(
        |w: Seq<char>| warn_check("config-drift"@, w, Some("Manifest/lock drift detected"@)),
    )
}

/// Report drift between the configuration and the files on disk.
pub fn check_config_drift(config: &LunaConfig, files: &RepoFiles) -> (r: Vec<DoctorCheck>)
    ensures
        check_views(r@) == config_drift_spec(*config, *files),
{
    let warnings = validate_against_repo(config, files);
    let ghost wv = views(warnings@);
    let mut checks: Vec<DoctorCheck> = Vec::new();
    let mut i: usize = 0;
    while i < warnings.len()
        invariant
            wv == views(warnings@),
            i <= warnings@.len(),
            check_views(checks@) == wv.take(i as int).map_values(
                |w: Seq<char>| warn_check("config-drift"@, w, Some("Manifest/lock drift detected"@)),
            ),
        decreases warnings@.len() - i,
    {
        push_check(&mut checks, warn("config-drift", warnings[i].clone(), string_from("Manifest/lock drift detected")));
        proof {
            assert(wv[i as int] == warnings@[i as int]@);
            assert(check_views(checks@) =~= wv.take(i + 1).map_values(
                |w: Seq<char>| warn_check("config-drift"@, w, Some("Manifest/lock drift detected"@)),
            ));
        }
        i = i + 1;
    }
    proof {
        assert(wv.take(warnings@.len() as int) =~= wv);
    }
    checks
}

/// The policy checks: the minimum release age is at least one day, `frozen_ci`
/// is reported when on, and a `pixi.toml` (given by its text) must configure
/// `exclude-newer`.
pub open spec fn policy_compliance_spec(config: LunaConfig, pixi: Option<Seq<char>>) -> Seq<CheckView> {
    let days = config.policy.min_release_age_days;
    (if days >= 1 {
        seq![ok_check("policy-release-age"@, "Minimum release age: "@ + decimal(days as nat) + " days"@)]
    } else {
        seq![fail_check("policy-release-age"@, "Invalid min_release_age_days"@)]
    }) + (if config.policy.frozen_ci {
        seq![ok_check("policy-frozen-ci"@, "frozen_ci enabled in luna.toml"@)]
    } else {
        seq![]
    }) + match pixi {
        Some(text) => if contains(text, "exclude-newer"@) {
            seq![ok_check("policy-pixi-exclude-newer"@, "pixi.toml exclude-newer configured"@)]
        } else {
            seq![
                warn_check(
                    "policy-pixi-exclude-newer"@,
                    "pixi.toml missing exclude-newer"@,
                    Some("Align with policy.min_release_age_days"@),
                ),
            ]
        },
        None => seq![],
    }
}

/// Check the configuration against the supply-chain policy.
pub fn check_policy_compliance(config: &LunaConfig, pixi: Option<&str>) -> (r: Vec<DoctorCheck>)
    ensures
        check_views(r@) == policy_compliance_spec(
            *config,
            match pixi {
                Some(t) => Some(t@),
                None => None,
            },
        ),
{
    let mut checks: Vec<DoctorCheck> = Vec::new();
    let days = config.policy.min_release_age_days;
    if days >= 1 {
        let mut label = string_from("Minimum release age: ");
        crate::num::push_decimal(&mut label, days);
        push_str(&mut label, " days");
        push_check(&mut checks, ok("policy-release-age", label));
    } else {
        push_check(&mut checks, fail("policy-release-age", string_from("Invalid min_release_age_days")));
    }
    if config.policy.frozen_ci {
        push_check(&mut checks, ok("policy-frozen-ci", string_from("frozen_ci enabled in luna.toml")));
    }
    match pixi {
        Some(text) => {
            let cs = chars_of(text);
            if contains_str(cs.as_slice(), "exclude-newer") {
                push_check(
                    &mut checks,
                    ok("policy-pixi-exclude-newer", string_from("pixi.toml exclude-newer configured")),
                );
            } else {
                push_check(
                    &mut checks,
                    warn(
                        "policy-pixi-exclude-newer",
                        string_from("pixi.toml missing exclude-newer"),
                        string_from("Align with policy.min_release_age_days"),
                    ),
                );
            }
        },
        None => {},
    }
    assert(check_views(checks@) =~= policy_compliance_spec(
        *config,
        match pixi {
            Some(t) => Some(t@),
            None => None,
        },
    ));
    checks
}

/// The check of `.prototools`.
pub open spec fn prototools_spec(present: bool) -> CheckView {
    if present {
        ok_check("prototools"@, ".prototools present"@)
    } else {
        warn_check("prototools"@, ".prototools not found"@, Some("Toolchain pins may be missing"@))
    }
}

/// Check that toolchain pins exist.
pub fn check_prototools(present: bool) -> (r: DoctorCheck)
    ensures
        r@ == prototools_spec(present),
{
    if present {
        ok("prototools", string_from(".prototools present"))
    } else {
        warn("prototools", string_from(".prototools not found"), string_from("Toolchain pins may be missing"))
    }
}

/// The tools `doctor` looks for: pixi only when its adapter is enabled.
pub open spec fn doctor_tools_spec(config: LunaConfig) -> Seq<Seq<char>> {
    seq!["proto"@, "moon"@, "bun"@, "cargo"@, "go"@, "uv"@] + if config.adapters.pixi.enabled {
        seq!["pixi"@]
    } else {
        seq![]
    }
}

/// The tools `doctor` looks for.
pub fn doctor_tools(config: &LunaConfig) -> (r: Vec<String>)
    ensures
        views(r@) == doctor_tools_spec(*config),
{
    let mut tools = crate::formats::strings(&["proto", "moon", "bun", "cargo", "go", "uv"]);
    let ghost base = views(tools@);
    if config.adapters.pixi.enabled {
        tools.push(string_from("pixi"));
        assert(views(tools@) =~= base.push("pixi"@));
    }
    assert(views(tools@) =~= doctor_tools_spec(*config));
    tools
}

/// The tools found (`want`) or missing (`!want`), in order.
pub open spec fn tools_where(tools: Seq<(Seq<char>, bool)>, want: bool) -> Seq<Seq<char>>
    decreases tools.len(),
{
    if tools.len() == 0 {
        seq![]
    } else {
        tools_where(tools.drop_last(), want) + if tools.last().1 == want {
            seq![tools.last().0]
        } else {
            seq![]
        }
    }
}

/// The check of tool presence, given each tool and whether it is installed.
pub open spec fn tool_presence_spec(tools: Seq<(Seq<char>, bool)>) -> CheckView {
    let present = join(tools_where(tools, true), ", "@);
    if tools_where(tools, false).len() == 0 {
        ok_check("tool-presence"@, "All core tools available: "@ + present)
    } else {
        warn_check(
            "tool-presence"@,
            "Missing tools: "@ + join(tools_where(tools, false), ", "@),
            Some("Available: "@ + present),
        )
    }
}

/// Check that the core tools are installed.
pub fn check_tool_presence(tools: &[(String, bool)]) -> (r: DoctorCheck)
    ensures
        r@ == tool_presence_spec(tools@.map_values(|t: (String, bool)| (t.0@, t.1))),
{
    let ghost tv = tools@.map_values(|t: (String, bool)| (t.0@, t.1));
    let mut present: Vec<String> = Vec::new();
    let mut missing: Vec<String> = Vec::new();
    let mut i: usize = 0;
    while i < tools.len()
        invariant
            tv == tools@.map_values(|t: (String, bool)| (t.0@, t.1)),
            i <= tools@.len(),
            views(present@) == tools_where(tv.take(i as int), true),
            views(missing@) == tools_where(tv.take(i as int), false),
        decreases tools@.len() - i,
    {
        proof {
            assert(tv.take(i + 1).drop_last() =~= tv.take(i as int));
            assert(tv[i as int] == (tools@[i as int].0@, tools@[i as int].1));
        }
        let ghost pv = views(present@);
        let ghost mv = views(missing@);
        if tools[i].1 {
            present.push(tools[i].0.clone());
            assert(views(present@) =~= pv.push(tv[i as int].0));
            assert(views(missing@) =~= tools_where(tv.take(i + 1), false));
        } else {
            missing.push(tools[i].0.clone());
            assert(views(missing@) =~= mv.push(tv[i as int].0));
            assert(views(present@) =~= tools_where(tv.take(i + 1), true));
        }
        i = i + 1;
    }
    proof {
        assert(tv.take(tools@.len() as int) =~= tv);
    }
    let joined = join_strings(&present, ", ");
    if missing.len() == 0 {
        let mut label = string_from("All core tools available: ");
        push_str(&mut label, joined.as_str());
        ok("tool-presence", label)
    } else {
        let mut label = string_from("Missing tools: ");
        let m = join_strings(&missing, ", ");
        push_str(&mut label, m.as_str());
        let mut detail = string_from("Available: ");
        push_str(&mut detail, joined.as_str());
        warn("tool-presence", label, detail)
    }
}

/// The number of checks with a given status.
pub open spec fn count_status(checks: Seq<CheckView>, status: DoctorStatus) -> nat
    decreases checks.len(),
{
    if checks.len() == 0 {
        0
    } else {
        count_status(checks.drop_last(), status) + if checks.last().status == status {
            1nat
        } else {
            0nat
        }
    }
}

/// Every check is counted under exactly one status.
pub proof fn lemma_summary_covers_checks(checks: Seq<CheckView>)
    ensures
        count_status(checks, DoctorStatus::Pass) + count_status(checks, DoctorStatus::Warn) + count_status(
            checks,
            DoctorStatus::Fail,
        ) == checks.len(),
    decreases checks.len(),
{
    if checks.len() > 0 {
        lemma_summary_covers_checks(checks.drop_last());
    }
}

/// Count the checks of each status.
pub fn summarize(checks: &Vec<DoctorCheck>) -> (r: DoctorSummary)
    ensures
        r.ok == count_status(check_views(checks@), DoctorStatus::Pass),
        r.warn == count_status(check_views(checks@), DoctorStatus::Warn),
        r.fail == count_status(check_views(checks@), DoctorStatus::Fail),
{
    let ghost cv = check_views(checks@);
    let mut ok_n: usize = 0;
    let mut warn_n: usize = 0;
    let mut fail_n: usize = 0;
    let mut i: usize = 0;
    while i < checks.len()
        invariant
            cv == check_views(checks@),
            i <= checks@.len(),
            ok_n == count_status(cv.take(i as int), DoctorStatus::Pass),
            warn_n == count_status(cv.take(i as int), DoctorStatus::Warn),
            fail_n == count_status(cv.take(i as int), DoctorStatus::Fail),
        decreases checks@.len() - i,
    {
        proof {
            assert(cv.take(i + 1).drop_last() =~= cv.take(i as int));
            assert(cv[i as int] == checks@[i as int]@);
            lemma_summary_covers_checks(cv.take(i as int));
        }
        match checks[i].status {
            DoctorStatus::Pass => ok_n = ok_n + 1,
            DoctorStatus::Warn => warn_n = warn_n + 1,
            DoctorStatus::Fail => fail_n = fail_n + 1,
        }
        i = i + 1;
    }
    proof {
        assert(cv.take(checks@.len() as int) =~= cv);
    }
    DoctorSummary { ok: ok_n, warn: warn_n, fail: fail_n }
}

/// The exit code of `luna doctor`: 1 when a check failed, or, under `--ci`
/// with the frozen policy (`policy.frozen_ci`) on, when a check warned;
/// 0 otherwise.
pub fn doctor_exit_code(summary: &DoctorSummary, ci: bool, frozen_ci: bool) -> (r: i32)
    ensures
        r == (if summary.fail > 0 || (ci && frozen_ci && summary.warn > 0) {
            1i32
        } else {
            0i32
        }),
{
    if summary.fail > 0 || (ci && frozen_ci && summary.warn > 0) {
        1
    } else {
        0
    }
}

/// The report for a list of checks, with their summary.
pub fn doctor_report(root: &str, checks: Vec<DoctorCheck>) -> (r: DoctorReport)
    ensures
        r.schema_version@ == crate::output::SCHEMA_VERSION@,
        r.workspace_root@ == root@,
        check_views(r.checks@) == check_views(checks@),
        r.summary.ok == count_status(check_views(checks@), DoctorStatus::Pass),
        r.summary.warn == count_status(check_views(checks@), DoctorStatus::Warn),
        r.summary.fail == count_status(check_views(checks@), DoctorStatus::Fail),
{
    let summary = summarize(&checks);
    DoctorReport {
        schema_version: string_from(crate::output::SCHEMA_VERSION),
        workspace_root: string_from(root),
        checks,
        summary,
    }
}

} // verus!
