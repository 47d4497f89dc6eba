use luna_cli::cli::{Backend, GlobalArgs};
use luna_cli::config::{validate, LunaConfig, ConfigError};
use luna_cli::execution::ExecutionMode;
use luna_cli::output::SCHEMA_VERSION;
use luna_cli::planner::{
    after_run, build_plan, completes, decide_step, record_completed, PlanCacheKey, PlanError, Step, StepDecision,
    StepOutcome, SyncFacts,
};
use luna_cli::security::{
    exclude_newer_date, min_release_age_days, min_release_age_secs, wrap, SECONDS_PER_DAY, format_ymd_from_unix_days,
    exclude_newer_date_at, resolve_firewall_decision,
};

fn step(id: &str, mutability: &str, safety: &str, cacheability: &str, depends_on: Vec<String>) -> Step {
    Step {
        id: id.into(),
        adapter: "bun".into(),
        program: "bun".into(),
        args: vec![],
        cwd: None,
        env_selector: None,
        depends_on,
        cacheability: cacheability.into(),
        mutability: mutability.into(),
        safety: safety.into(),
    }
}

fn global() -> GlobalArgs {
    GlobalArgs {
        verbose: 0,
        quiet: false,
        firewall: false,
        json: false,
        dry_run: false,
        locked: false,
        frozen: false,
        cwd: None,
        backend: Backend::Auto,
        affected: false,
        no_cache: false,
        trace: false,
        mode: None,
    }
}

fn all_facts() -> SyncFacts {
    SyncFacts { pixi_manifest: true, bun_manifest: true, uv_projects: true, cargo_manifest: true, go_workspace: true }
}

#[test]
fn offline_blocks_network() {
    let s = step("x", "install", "network-required", "none", vec![]);
    assert!(!ExecutionMode::Offline.allows_network(&s));
}

#[test]
fn offline_allows_offline_safe_steps() {
    let s = step("x", "install", "offline-safe", "none", vec![]);
    assert!(ExecutionMode::Offline.allows_network(&s));
    assert!(ExecutionMode::Apply.allows_network(&step("y", "install", "network-required", "none", vec![])));
}

#[test]
fn cli_defaults_to_apply_without_mode_flag() {
    let mut config = LunaConfig::default();
    config.agent.safe_mode_default = "inspect".into();
    assert_eq!(ExecutionMode::from_config_and_flag(&config, &global()), ExecutionMode::Apply);
}

#[test]
fn mode_flag_selects_mode() {
    let config = LunaConfig::default();
    let mut g = global();
    g.mode = Some("offline".into());
    assert_eq!(ExecutionMode::from_config_and_flag(&config, &g), ExecutionMode::Offline);
    assert_eq!(ExecutionMode::parse_mode("inspect"), ExecutionMode::Inspect);
}

#[test]
fn schema_version_constant() {
    assert_eq!(SCHEMA_VERSION, "v1");
}

#[test]
fn cache_key_fingerprint_stable() {
    let key = PlanCacheKey {
        step_id: "moon:build".into(),
        adapter: "moon".into(),
        normalized_command: "moon run :build".into(),
        manifest_hashes: vec!["abc123".into()],
        lockfile_hashes: vec!["def456".into()],
        env_identity: "default".into(),
        platform_key: "osx-arm64".into(),
    };
    let fp1 = key.fingerprint();
    let fp2 = key.fingerprint();
    assert_eq!(fp1, fp2);
    assert!(fp1.contains("moon:build"));
}

#[test]
fn build_plan_sync() {
    let config = LunaConfig::default();
    let plan = build_plan("/repo", &all_facts(), &config, "sync").ok().unwrap();
    assert_eq!(plan.target, "sync");
    assert!(!plan.steps.is_empty());
}

#[test]
fn sync_plan_runs_proto_before_pixi() {
    let config = LunaConfig::default();
    let plan = build_plan("/repo", &all_facts(), &config, "sync").ok().unwrap();
    let ids: Vec<_> = plan.steps.iter().map(|s| s.id.as_str()).collect();
    let proto_idx = ids.iter().position(|id| *id == "proto:install");
    let pixi_idx = ids.iter().position(|id| *id == "pixi:sync");
    assert!(proto_idx.is_some() && pixi_idx.is_some());
    assert!(proto_idx.unwrap() < pixi_idx.unwrap());
    let pixi = plan.steps.iter().find(|s| s.id == "pixi:sync").unwrap();
    assert!(pixi.depends_on.iter().any(|d| d.starts_with("moon:")));
}

#[test]
fn build_plan_unknown_target() {
    let config = LunaConfig::default();
    let r = build_plan("/repo", &all_facts(), &config, "nonexistent");
    assert!(r.is_err());
    match r {
        Err(PlanError::UnknownTarget(t)) => assert_eq!(t, "nonexistent"),
        Ok(_) => panic!("expected an error"),
    }
}

#[test]
fn plan_steps_depend_only_on_earlier_steps() {
    let config = LunaConfig::default();
    for target in ["sync", "build", "test", "check", "outdated", "update"] {
        let plan = build_plan("/repo", &all_facts(), &config, target).ok().unwrap();
        for (i, s) in plan.steps.iter().enumerate() {
            for d in &s.depends_on {
                assert!(plan.steps[..i].iter().any(|e| &e.id == d), "{target}: {d}");
            }
        }
    }
}

#[test]
fn decide_step_orders_its_checks() {
    let s = step("a", "install", "network-required", "local", vec!["dep".into()]);
    let none: Vec<String> = vec![];
    match decide_step(ExecutionMode::Apply, false, &none, &s, false, false) {
        StepDecision::MissingDependency(d) => assert_eq!(d, "dep"),
        _ => panic!("expected a missing dependency"),
    }
    let done = vec!["dep".to_string()];
    assert!(matches!(decide_step(ExecutionMode::Apply, true, &done, &s, false, false), StepDecision::DryRun));
    assert!(matches!(decide_step(ExecutionMode::Offline, false, &done, &s, false, false), StepDecision::BlockedMutation));
    let reader = step("r", "read-only", "network-required", "local", vec!["dep".into()]);
    assert!(matches!(decide_step(ExecutionMode::Offline, false, &done, &reader, false, false), StepDecision::BlockedNetwork));
    assert!(matches!(decide_step(ExecutionMode::Apply, false, &done, &s, true, false), StepDecision::CacheHit));
    assert!(matches!(decide_step(ExecutionMode::Apply, false, &done, &s, true, true), StepDecision::Run));
}

#[test]
fn after_run_stops_on_failure_and_caches_local_steps() {
    let local = step("a", "install", "network-required", "local", vec![]);
    let remote = step("b", "install", "network-required", "none", vec![]);
    assert!(matches!(after_run(&local, 3, false), StepOutcome::Stop(3)));
    assert!(matches!(after_run(&local, -1, true), StepOutcome::Stop(-1)));
    assert!(matches!(after_run(&local, 0, false), StepOutcome::Done { write_cache: true }));
    assert!(matches!(after_run(&local, 0, true), StepOutcome::Done { write_cache: false }));
    assert!(matches!(after_run(&remote, 0, false), StepOutcome::Done { write_cache: false }));
}

#[test]
fn completed_steps_are_recorded_in_order() {
    let mut done: Vec<String> = vec!["first".to_string()];
    record_completed(&mut done, &step("second", "install", "none", "none", vec![]));
    assert_eq!(done, vec!["first".to_string(), "second".to_string()]);
    assert!(completes(&StepDecision::DryRun));
    assert!(completes(&StepDecision::CacheHit));
    assert!(completes(&StepDecision::Run));
    assert!(!completes(&StepDecision::BlockedMutation));
    assert!(!completes(&StepDecision::BlockedNetwork));
    assert!(!completes(&StepDecision::MissingDependency("x".to_string())));
}

#[test]
fn day_texts_follow_the_calendar() {
    assert_eq!(format_ymd_from_unix_days(58), "1970-02-28");
    assert_eq!(format_ymd_from_unix_days(59), "1970-03-01");
    assert_eq!(format_ymd_from_unix_days(789), "1972-02-29");
    assert_eq!(format_ymd_from_unix_days(790), "1972-03-01");
    assert_eq!(format_ymd_from_unix_days(364), "1970-12-31");
    assert_eq!(format_ymd_from_unix_days(365), "1971-01-01");
    assert_eq!(format_ymd_from_unix_days(11_322), "2000-12-31");
    assert_eq!(format_ymd_from_unix_days(2_932_896), "9999-12-31");
    let days = [0u64, 1, 58, 59, 789, 790, 11_016, 19_723, 2_932_895, 2_932_896];
    for w in days.windows(2) {
        let (a, b) = (format_ymd_from_unix_days(w[0]), format_ymd_from_unix_days(w[1]));
        assert!(a < b, "{a} < {b}");
        assert_eq!((a.len(), &a[4..5], &a[7..8]), (10, "-", "-"));
    }
}

#[test]
fn validate_accepts_valid_config() {
    let config = LunaConfig { schema: 1, ..Default::default() };
    assert!(validate(&config).is_ok());
}

#[test]
fn validate_rejects_zero_schema() {
    let mut config = LunaConfig { schema: 1, ..Default::default() };
    config.schema = 0;
    assert!(validate(&config).is_err());
}

#[test]
fn validate_rejects_empty_name() {
    let mut config = LunaConfig { schema: 1, ..Default::default() };
    config.workspace.name = String::new();
    assert!(validate(&config).is_err());
}

#[test]
fn validate_rejects_zero_min_release_age() {
    let mut config = LunaConfig { schema: 1, ..Default::default() };
    config.policy.min_release_age_days = 0;
    assert!(matches!(validate(&config), Err(ConfigError::ZeroMinReleaseAge)));
}

#[test]
fn default_min_release_age_secs_is_14_days() {
    assert_eq!(min_release_age_days(None), 14);
    assert_eq!(min_release_age_secs(min_release_age_days(None)), 14 * SECONDS_PER_DAY);
    assert_eq!(min_release_age_secs(14), 1_209_600);
}

#[test]
fn min_release_age_days_env_override() {
    assert_eq!(min_release_age_days(Some("7")), 7);
    assert_eq!(min_release_age_secs(min_release_age_days(Some("7"))), 7 * SECONDS_PER_DAY);
    assert_eq!(min_release_age_days(Some("0")), 14);
    assert_eq!(min_release_age_days(Some("soon")), 14);
}

#[test]
fn exclude_newer_date_is_iso_format() {
    let date = exclude_newer_date(14);
    assert_eq!(date.len(), 10);
    assert!(date.as_bytes()[4] == b'-');
    assert!(date.as_bytes()[7] == b'-');
    let parts: Vec<_> = date.split('-').collect();
    assert_eq!(parts.len(), 3);
    assert!(parts[0].parse::<u32>().is_ok());
    assert!(parts[1].parse::<u32>().is_ok());
    assert!(parts[2].parse::<u32>().is_ok());
}

#[test]
fn exclude_newer_date_at_known_instants() {
    assert_eq!(format_ymd_from_unix_days(0), "1970-01-01");
    assert_eq!(format_ymd_from_unix_days(19_723), "2024-01-01");
    assert_eq!(format_ymd_from_unix_days(11_016), "2000-02-29");
    assert_eq!(exclude_newer_date_at(1_700_000_000, 14 * SECONDS_PER_DAY), "2023-10-31");
    assert_eq!(exclude_newer_date_at(10, 1_000), "1970-01-01");
}

#[test]
fn wrap_adds_sfw_for_supported_tools() {
    let args = vec!["update".to_string()];
    let (prog, wrapped) = wrap("cargo", &args, true);
    assert_eq!(prog, "sfw");
    assert_eq!(wrapped, vec!["cargo", "update"]);

    let (prog, wrapped) = wrap("uv", &["sync".to_string()], true);
    assert_eq!(prog, "sfw");
    assert_eq!(wrapped[0], "uv");
}

#[test]
fn wrap_skips_unsupported_tools() {
    let args = vec!["install".to_string()];
    let (prog, wrapped) = wrap("bun", &args, true);
    assert_eq!(prog, "bun");
    assert_eq!(wrapped, args);

    let (prog, _wrapped) = wrap("go", &["mod".to_string(), "tidy".to_string()], true);
    assert_eq!(prog, "go");
}

#[test]
fn wrap_inactive_passthrough() {
    let args = vec!["update".to_string()];
    let (prog, wrapped) = wrap("cargo", &args, false);
    assert_eq!(prog, "cargo");
    assert_eq!(wrapped, args);
}

#[test]
fn firewall_resolution() {
    let r = resolve_firewall_decision(true, false, false, false);
    assert!(!r.active && r.warn_missing);
    let r = resolve_firewall_decision(true, false, false, true);
    assert!(!r.active && !r.warn_missing);
    let r = resolve_firewall_decision(true, true, false, false);
    assert!(r.active && !r.warn_missing);
    let r = resolve_firewall_decision(false, true, false, false);
    assert!(!r.active && !r.warn_missing);
}

#[test]
fn should_execute_step_reasons() {
    let s = step("a", "install", "network-required", "none", vec![]);
    assert_eq!(luna_cli::execution::should_execute_step(ExecutionMode::Plan, &s, false).err().unwrap(), "dry-run: skip step a");
    assert_eq!(
        luna_cli::execution::should_execute_step(ExecutionMode::Offline, &s, false).err().unwrap(),
        "mode Offline blocks mutating step a"
    );
    assert!(luna_cli::execution::should_execute_step(ExecutionMode::Apply, &s, false).is_ok());
    let mut config = LunaConfig::default();
    config.agent.safe_mode_default = "plan".into();
    assert_eq!(ExecutionMode::from_agent_config(&config), ExecutionMode::Plan);
}

#[test]
fn policy_from_records_inputs() {
    let p = luna_cli::deps::model::policy_from(true, false, 14);
    assert!(p.major && !p.firewall);
    assert_eq!(p.min_release_age_days, 14);
    assert_eq!(p.uv_exclude_newer.unwrap().len(), 10);
}
