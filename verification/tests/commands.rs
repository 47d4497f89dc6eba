use luna_cli::agent::{mcp_method, mcp_tool, method_not_found, McpMethod, McpTool};
use luna_cli::commands::apply::{check_fingerprint, default_plan_path, plan_fingerprint};
use luna_cli::commands::ci::{ci_report, ci_stages};
use luna_cli::commands::completions::{parse_shell, ShellName};
use luna_cli::commands::doctor::{
    check_luna_toml, check_policy_compliance, check_root_detection, check_tool_presence, doctor_exit_code,
    doctor_report, doctor_tools, summarize, DoctorSummary,
};
use luna_cli::commands::env::{
    env_exec_command, env_install_args, environments_from, features_text, parse_pixi_environments, strings_present,
};
use luna_cli::commands::migrate::{check_overwrite, needs_pixi_scaffold, MigrateMode};
use luna_cli::commands::moon;
use luna_cli::commands::pkg::{resolve_pkg_cmd, resolve_project_dir, ProjectManifests};
use luna_cli::commands::plan_text::{exit_status, plan_line};
use luna_cli::commands::sbom::{purl, sbom_report, SbomFormat};
use luna_cli::commands::scripts::check_step;
use luna_cli::commands::update::{count_results, reuse_message, skipped_count, update_exit_code, updating_message};
use luna_cli::deps::model::{PackageUpdateResult, PackageUpdateStatus};
use luna_cli::output::{lock_exit_code, AdapterLedgerEntry, LockLedgerReport};
use luna_cli::commands::workspace_tasks;
use luna_cli::config::LunaConfig;
use luna_cli::deps::model::ToolchainKind;
use luna_cli::diagnostics::{DoctorStatus, InventoryItem};
use luna_cli::output::CiStageReport;
use luna_cli::planner::{Plan, Step};

#[test]
fn core_with_affected_false() {
    let args = vec!["run", ":build"];
    assert_eq!(workspace_tasks::with_affected(args, false), vec!["run", ":build"]);
}

#[test]
fn core_with_affected_true() {
    let args = vec!["run", ":build"];
    assert_eq!(workspace_tasks::with_affected(args, true), vec!["run", ":build", "--affected"]);
}

#[test]
fn moon_with_affected_false() {
    let args = vec!["run", ":build"];
    assert_eq!(moon::with_affected(args, false), vec!["run", ":build"]);
}

#[test]
fn moon_with_affected_true() {
    let args = vec!["run", ":build"];
    assert_eq!(moon::with_affected(args, true), vec!["run", ":build", "--affected"]);
}

#[test]
fn task_argv_uses_scope_query() {
    let config = LunaConfig::default();
    assert_eq!(workspace_tasks::scope_query(&config, "build"), "projectLayer=application");
    assert_eq!(
        workspace_tasks::task_argv(&config, "build", None, true),
        vec!["run", ":build", "--query", "projectLayer=application", "--affected"]
    );
    assert_eq!(workspace_tasks::task_argv(&config, "test", Some("app"), false), vec!["run", "app:test"]);
    assert_eq!(workspace_tasks::watch_args(&config).last().unwrap(), "projectLayer=application");
    assert!(!workspace_tasks::uses_watcher(&config, None, true));
    assert_eq!(moon::task_args("build", None, false), vec!["run", ":build", "--query", "projectLayer=application"]);
}

#[test]
fn root_detection_checks() {
    assert_eq!(check_root_detection(true, false, false).status, DoctorStatus::Pass);
    assert_eq!(check_root_detection(false, true, true).status, DoctorStatus::Warn);
    assert_eq!(check_root_detection(false, true, false).status, DoctorStatus::Fail);
    assert_eq!(check_luna_toml(Some("bad key"), true).label, "luna.toml invalid: bad key");
    assert_eq!(check_luna_toml(Some("missing"), false).status, DoctorStatus::Warn);
}

#[test]
fn policy_checks_and_summary() {
    let config = LunaConfig::default();
    let checks = check_policy_compliance(&config, Some("[workspace]\nexclude-newer = \"2024-01-01\"\n"));
    assert_eq!(checks.len(), 2);
    assert_eq!(checks[0].label, "Minimum release age: 14 days");
    assert_eq!(checks[1].status, DoctorStatus::Pass);
    let mut all = check_policy_compliance(&config, Some(""));
    all.push(check_root_detection(false, false, false));
    let summary = summarize(&all);
    assert_eq!((summary.ok, summary.warn, summary.fail), (1, 1, 1));
    assert_eq!(doctor_exit_code(&summary, false, false), 1);
    let report = doctor_report("/repo", all);
    assert_eq!(report.summary.ok + report.summary.warn + report.summary.fail, report.checks.len());
}

#[test]
fn doctor_ci_fails_on_warnings_only_under_frozen_policy() {
    let summary = DoctorSummary { ok: 3, warn: 1, fail: 0 };
    assert_eq!(doctor_exit_code(&summary, false, false), 0);
    assert_eq!(doctor_exit_code(&summary, true, false), 0);
    assert_eq!(doctor_exit_code(&summary, false, true), 0);
    assert_eq!(doctor_exit_code(&summary, true, true), 1);
    let clean = DoctorSummary { ok: 4, warn: 0, fail: 0 };
    assert_eq!(doctor_exit_code(&clean, true, true), 0);
    let failed = DoctorSummary { ok: 0, warn: 0, fail: 2 };
    assert_eq!(doctor_exit_code(&failed, false, false), 1);
}

#[test]
fn tool_presence_lists_missing_tools() {
    let tools = vec![("proto".to_string(), true), ("moon".to_string(), false), ("bun".to_string(), true)];
    let c = check_tool_presence(&tools);
    assert_eq!(c.label, "Missing tools: moon");
    assert_eq!(c.detail.as_deref(), Some("Available: proto, bun"));
    let c = check_tool_presence(&[("go".to_string(), true)]);
    assert_eq!(c.label, "All core tools available: go");
    assert_eq!(doctor_tools(&LunaConfig::default()).len(), 7);
}

#[test]
fn env_parsing() {
    let text = "[environments]\ndefault = []\njs = [\"js\", \"node\"]\nsolo = { features = [\"x\"] }\n";
    let envs = parse_pixi_environments(Some(text));
    assert_eq!(envs.len(), 3);
    assert!(envs.iter().any(|e| e.name == "js" && e.features == vec!["js".to_string(), "node".to_string()]));
    assert!(envs.iter().any(|e| e.name == "solo" && e.features.is_empty()));
    let fallback = parse_pixi_environments(Some("[workspace]\n"));
    assert_eq!(fallback.len(), 1);
    assert_eq!(fallback[0].name, "default");
    assert_eq!(features_text(&fallback[0]), "(default)");
    assert_eq!(parse_pixi_environments(None)[0].name, "default");
}

#[test]
fn env_commands() {
    assert_eq!(env_install_args("js", true), vec!["install", "-e", "js", "--locked"]);
    let cmd = vec!["node".to_string(), "x.js".to_string()];
    let (p, a) = env_exec_command(true, Some("js"), &cmd).ok().unwrap();
    assert_eq!(p, "pixi");
    assert_eq!(a, vec!["run", "-e", "js", "--", "node", "x.js"]);
    let (p, a) = env_exec_command(false, None, &cmd).ok().unwrap();
    assert_eq!(p, "node");
    assert_eq!(a, vec!["x.js"]);
    assert_eq!(env_exec_command(true, None, &[]).err().unwrap(), "env exec requires a command after `--`");
}

#[test]
fn sbom_formats_and_components() {
    assert_eq!(SbomFormat::parse_format("cyclonedx"), SbomFormat::CycloneDx);
    assert_eq!(SbomFormat::parse_format("other"), SbomFormat::Json);
    assert_eq!(SbomFormat::Json.label(), "luna");
    let item = InventoryItem::new("bun", "vite".into(), "7.3.4".into()).with_source("package.json").with_ecosystem("npm");
    let report = sbom_report("/repo", SbomFormat::CycloneDx, vec![item]);
    assert_eq!(report.format, "cyclonedx");
    assert_eq!(report.components.len(), 1);
    assert_eq!(report.components[0].name, "vite");
    assert_eq!(purl(&report.components[0]), "pkg:npm@vite");
}

#[test]
fn migrate_rules() {
    assert!(check_overwrite("/r/luna.toml", false, false).is_ok());
    assert!(check_overwrite("/r/luna.toml", true, true).is_ok());
    assert_eq!(
        check_overwrite("/r/luna.toml", true, false).err().unwrap(),
        "luna.toml already exists at /r/luna.toml — pass --force to overwrite"
    );
    assert!(needs_pixi_scaffold(MigrateMode::Init, false));
    assert!(!needs_pixi_scaffold(MigrateMode::Migrate, false));
}

#[test]
fn apply_fingerprints() {
    let plan = Plan { target: "build".into(), workspace_root: "/r".into(), steps: Vec::new(), fingerprint: None };
    let fp = plan_fingerprint(&plan, "abc");
    assert_eq!(fp, "build::0::abc");
    assert!(check_fingerprint(&fp, Some("build::0::abc")).is_ok());
    assert_eq!(
        check_fingerprint(&fp, Some("build::1::abc")).err().unwrap(),
        "stale plan: workspace manifests changed since plan was written"
    );
    assert!(check_fingerprint(&fp, None).is_err());
    let config = LunaConfig::default();
    assert_eq!(default_plan_path("/r", &config, "build"), "/r/.luna/plans/build.plan.json");
}

#[test]
fn pkg_resolution() {
    let m = ProjectManifests { bun: false, uv: false, cargo: false, go: true };
    let (p, a) = resolve_pkg_cmd(&m, "golang.org/x/y", false).ok().unwrap();
    assert_eq!(p, "go");
    assert_eq!(a, vec!["get", "-golang.org/x/y"]);
    let m = ProjectManifests { bun: true, uv: true, cargo: false, go: false };
    let (p, a) = resolve_pkg_cmd(&m, "vite", true).ok().unwrap();
    assert_eq!((p.as_str(), a), ("bun", vec!["add".to_string(), "vite".to_string()]));
    let none = ProjectManifests { bun: false, uv: false, cargo: false, go: false };
    assert!(resolve_pkg_cmd(&none, "x", true).is_err());
    let projects = vec![("app".to_string(), "/r/apps/app".to_string())];
    assert_eq!(resolve_project_dir("/r", Some("app"), &projects).ok().unwrap(), "/r/apps/app");
    assert_eq!(resolve_project_dir("/r", Some("zz"), &projects).err().unwrap(), "unknown project id: zz");
    assert_eq!(resolve_project_dir("/r", None, &projects).ok().unwrap(), "/r");
}

#[test]
fn update_messages() {
    assert_eq!(skipped_count(5, 2), 3);
    assert_eq!(skipped_count(1, 2), 0);
    assert_eq!(update_exit_code(false, 0), 0);
    assert_eq!(update_exit_code(false, 2), 1);
    assert_eq!(updating_message(&[ToolchainKind::Bun, ToolchainKind::Go]), "\nUpdating outdated toolchains: bun, go");
    assert_eq!(reuse_message(600, &[]), "Recent snapshot found (10m ago). Updating outdated toolchains: none\n");
}

#[test]
fn ci_stops_at_first_failure() {
    assert_eq!(ci_stages(), vec!["doctor", "sync", "check", "build", "test"]);
    let stages = vec![
        CiStageReport { name: "doctor".into(), exit_code: 0, elapsed_ms: 1 },
        CiStageReport { name: "sync".into(), exit_code: 3, elapsed_ms: 1 },
    ];
    let (report, overall) = ci_report("/r", stages);
    assert_eq!(overall, 3);
    assert!(!report.passed);
}

#[test]
fn step_failure_message() {
    assert!(check_step("bun", &vec!["install".to_string()], 0).is_ok());
    assert_eq!(
        check_step("go", &vec!["work".to_string(), "sync".to_string()], 2).err().unwrap(),
        "`go work sync` failed with exit code 2"
    );
}

#[test]
fn shells_and_exit_status() {
    assert_eq!(parse_shell("zsh"), ShellName::Zsh);
    assert_eq!(parse_shell("nu"), ShellName::Bash);
    assert_eq!(exit_status(-1), 0);
    assert_eq!(exit_status(300), 255);
    assert_eq!(exit_status(7), 7);
}

#[test]
fn plan_lines() {
    let step = Step {
        id: "pixi:sync".into(),
        adapter: "pixi".into(),
        program: "pixi".into(),
        args: vec!["install".into()],
        cwd: None,
        env_selector: None,
        depends_on: vec!["proto:install".into(), "moon:setup".into()],
        cacheability: "none".into(),
        mutability: "install".into(),
        safety: "network-required".into(),
    };
    assert_eq!(plan_line(&step), "  pixi pixi install (after proto:install, moon:setup)");
}

#[test]
fn mcp_routing() {
    assert_eq!(mcp_method("tools/call"), McpMethod::ToolsCall);
    assert_eq!(mcp_method("nope"), McpMethod::NotFound);
    assert_eq!(mcp_tool("sbom").ok().unwrap(), McpTool::Sbom);
    assert_eq!(mcp_tool("rm").err().unwrap(), "unknown tool: rm");
    assert_eq!(method_not_found("x"), (-32601, "method not found: x".to_string()));
}

#[test]
fn lock_report_and_counts() {
    let entries = vec![
        AdapterLedgerEntry { adapter: "bun".into(), lock_ok: true, items: Vec::new() },
        AdapterLedgerEntry { adapter: "pixi".into(), lock_ok: false, items: Vec::new() },
    ];
    assert_eq!(lock_exit_code(&entries), 1);
    assert_eq!(lock_exit_code(&entries[..1]), 0);
    let report = LockLedgerReport::from_ledger("/r", entries, "fp", ".luna/lock-ledger.json");
    assert_eq!(report.schema_version, "v1");
    assert_eq!(report.adapters.len(), 2);
    let result = |status| PackageUpdateResult {
        toolchain: ToolchainKind::Bun,
        workspaces: Vec::new(),
        dependency: "vite".into(),
        registry_name: None,
        previous: "1".into(),
        new_version: None,
        status,
    };
    let results = vec![result(PackageUpdateStatus::Updated), result(PackageUpdateStatus::Blocked), result(PackageUpdateStatus::Updated)];
    assert_eq!(count_results(&results, PackageUpdateStatus::Updated), 2);
    assert_eq!(count_results(&results, PackageUpdateStatus::Failed), 0);
}

#[test]
fn environments_from_parsed_table() {
    let entries = vec![
        ("default".to_string(), Some(vec![])),
        ("dev".to_string(), Some(vec![Some("test".to_string()), None, Some("lint".to_string())])),
        ("odd".to_string(), None),
    ];
    let envs = environments_from(&entries);
    assert_eq!(envs.len(), 3);
    assert_eq!(envs[0].name, "default");
    assert!(envs[0].features.is_empty());
    assert_eq!(envs[1].features, vec!["test".to_string(), "lint".to_string()]);
    assert!(envs[2].features.is_empty());
    assert_eq!(strings_present(&vec![None, Some("a".to_string())]), vec!["a".to_string()]);
}
