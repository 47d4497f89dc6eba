use luna_cli::deps::model::{
    one_major_ahead, DependencyRow, PackageUpdateResult, PackageUpdateStatus, ToolchainKind, ToolchainState,
    UpdateOutcome, ToolchainSnapshot, outdated_kinds,
};
use luna_cli::deps::probes::bun::{
    bun_failure_is_age_only, bun_row_to_dependency, parse_bun_blocked_errors, parse_bun_outdated_table, BunOutdatedRow,
};
use luna_cli::deps::probes::cargo::{cargo_rows_from, parse_cargo_outdated};
use luna_cli::formats::JsonScalar;
use luna_cli::deps::probes::go::parse_go_list_upgrades;
use luna_cli::deps::probes::proto::{parse_proto_outdated, proto_rows_from};
use luna_cli::deps::probes::uv::{parse_uv_dry_run_updates, uv_projects};
use luna_cli::deps::probes::ProbeOutcome;
use luna_cli::deps::eligible_kinds;
use luna_cli::runner::Output;

#[test]
fn one_major_ahead_detects_single_major_bump() {
    assert!(one_major_ahead("7.3.4", "8.0.14"));
    assert!(one_major_ahead("v1.2.3", "2.0.0"));
}

#[test]
fn one_major_ahead_rejects_same_or_multi_major() {
    assert!(!one_major_ahead("7.3.4", "7.4.0"));
    assert!(!one_major_ahead("7.3.4", "9.0.0"));
    assert!(!one_major_ahead("nightly", "8.0.0"));
}

#[test]
fn update_outcome_state_mapping() {
    assert_eq!(UpdateOutcome::Done.state(), ToolchainState::UpToDate);
    assert_eq!(UpdateOutcome::Blocked.state(), ToolchainState::Blocked);
    assert_eq!(UpdateOutcome::Failed("x".into()).state(), ToolchainState::Failed);
}

#[test]
fn package_update_result_serializes_status() {
    let result = PackageUpdateResult {
        toolchain: ToolchainKind::Bun,
        workspaces: vec!["app".into()],
        dependency: "vite".into(),
        registry_name: None,
        previous: "7.3.4".into(),
        new_version: Some("7.3.5".into()),
        status: PackageUpdateStatus::Updated,
    };
    assert_eq!(result.status, PackageUpdateStatus::Updated);
}

#[test]
fn parse_bun_outdated_table_rows() {
    let text = r#"
| Package    | Current | Update | Latest   | Workspace |
|------------|---------|--------|----------|-----------|
| vite       | 7.3.4   | 7.3.5  | 8.0.14 * | web       |
"#;
    let rows = parse_bun_outdated_table(text);
    assert_eq!(rows.len(), 1);
    assert_eq!(rows[0].latest, "8.0.14");
    assert!(rows[0].latest_blocked_by_age);
    assert_eq!(rows[0].workspace.as_deref(), Some("web"));
}

#[test]
fn bun_row_maps_to_dependency() {
    let row = BunOutdatedRow {
        package: "vite".into(),
        current: "7.3.4".into(),
        update: "7.3.5".into(),
        latest: "8.0.14".into(),
        latest_blocked_by_age: true,
        workspace: Some("web".into()),
    };
    let dep = bun_row_to_dependency(row);
    assert_eq!(dep.newest.as_deref(), Some("7.3.5"));
    assert_eq!(dep.latest.as_deref(), Some("8.0.14"));
    assert_eq!(dep.workspaces, vec!["web".to_string()]);
    assert!(dep.latest_one_major_ahead);
    assert_eq!(dep.blocked_reason.as_deref(), Some("minimum-release-age"));
}

#[test]
fn bun_row_same_update_has_no_newest() {
    let row = BunOutdatedRow {
        package: "react".into(),
        current: "19.0.0".into(),
        update: "19.0.0".into(),
        latest: "".into(),
        latest_blocked_by_age: false,
        workspace: Some("".into()),
    };
    let dep = bun_row_to_dependency(row);
    assert!(dep.newest.is_none());
    assert!(dep.latest.is_none());
    assert!(dep.workspaces.is_empty());
    assert!(dep.blocked_reason.is_none());
}

#[test]
fn parse_bun_blocked_error_line() {
    let text = r#"error: No version matching "vite" found for specifier "7.3.5" (blocked by minimum-release-age: 1209600 seconds)"#;
    let blocked = parse_bun_blocked_errors(text);
    assert_eq!(blocked.len(), 1);
    assert_eq!(blocked[0].0, "vite");
    assert_eq!(blocked[0].1, "7.3.5");
}

#[test]
fn bun_failure_is_age_only_true_for_cooldown_errors() {
    let stderr = r#"error: No version matching "vite" found for specifier "7.3.5" (blocked by minimum-release-age: 1209600 seconds)"#;
    assert!(bun_failure_is_age_only("", stderr));
}

#[test]
fn bun_failure_is_age_only_false_for_other_errors() {
    let stderr = r#"error: Connection refused while resolving vite"#;
    assert!(!bun_failure_is_age_only("", stderr));
}

#[test]
fn bun_failure_is_age_only_false_when_mixed_errors() {
    let stderr = r#"error: No version matching "vite" found for specifier "7.3.5" (blocked by minimum-release-age: 1209600 seconds)
error: Connection refused while resolving react"#;
    assert!(!bun_failure_is_age_only("", stderr));
}

#[test]
fn bun_failure_age_check_ignores_case() {
    let stderr = r#"error: No version matching "vite" found for specifier "7.3.5" (blocked by minimum-release-age: 1209600 seconds)
ERROR: Connection refused while resolving react"#;
    assert!(!bun_failure_is_age_only("", stderr));
}

#[test]
fn bun_failure_is_age_only_false_without_blocks() {
    assert!(!bun_failure_is_age_only("", ""));
}

#[test]
fn parses_compat_upgrade_as_newest() {
    let json = r#"{
        "crate_name": "luna",
        "dependencies": [
            {"name": "serde", "project": "1.0.1", "compat": "1.0.9", "latest": "1.0.9", "kind": "normal", "platform": null},
            {"name": "clap", "project": "4.5.0", "compat": "---", "latest": "5.0.0", "kind": "normal", "platform": null}
        ]
    }"#;
    let rows = parse_cargo_outdated(json).unwrap();
    assert_eq!(rows.len(), 1);
    assert_eq!(rows[0].dependency, "serde");
    assert_eq!(rows[0].current, "1.0.1");
    assert_eq!(rows[0].newest.as_deref(), Some("1.0.9"));
    assert!(rows[0].latest.is_none());
}

#[test]
fn cargo_outdated_rejects_invalid_json() {
    assert!(parse_cargo_outdated("not json").is_none());
}

#[test]
fn parses_bracketed_upgrades_only() {
    let stdout = "github.com/a/b v1.0.0 [v1.2.0]\ngithub.com/c/d v2.0.0\n";
    let ups = parse_go_list_upgrades(stdout);
    assert_eq!(ups.len(), 1);
    assert_eq!(ups[0].0, "github.com/a/b");
    assert_eq!(ups[0].1, "v1.0.0");
    assert_eq!(ups[0].2, "v1.2.0");
}

#[test]
fn parses_outdated_pins_only() {
    let json = r#"{
        "node": {"current": "20.0.0", "newest": "20.5.0", "latest": "21.1.0", "is_outdated": true},
        "bun": {"current": "1.1.0", "newest": "1.1.0", "latest": "1.1.0", "is_outdated": false}
    }"#;
    let rows = parse_proto_outdated(json).unwrap();
    assert_eq!(rows.len(), 1);
    assert_eq!(rows[0].dependency, "node");
    assert_eq!(rows[0].current, "20.0.0");
    assert_eq!(rows[0].newest.as_deref(), Some("20.5.0"));
    assert_eq!(rows[0].latest.as_deref(), Some("21.1.0"));
    assert!(rows[0].latest_one_major_ahead);
}

#[test]
fn empty_when_all_current() {
    let json = r#"{"node": {"current": "20.0.0", "newest": "20.0.0", "latest": "20.0.0", "is_outdated": false}}"#;
    assert!(parse_proto_outdated(json).unwrap().is_empty());
}

#[test]
fn parse_uv_dry_run_update_line() {
    let ups = parse_uv_dry_run_updates("Update fastapi v0.136.1 -> v0.136.3\n");
    assert_eq!(ups.len(), 1);
    assert_eq!(ups[0].0, "fastapi");
    assert_eq!(ups[0].1, "0.136.1");
    assert_eq!(ups[0].2, "0.136.3");
}

#[test]
fn uv_projects_prefers_workspace_root() {
    let p = uv_projects(Some("/w".to_string()), vec!["/w/a".to_string()]);
    assert_eq!(p, vec!["/w".to_string()]);
    let p = uv_projects(None, vec!["/w/a".to_string(), "/w/b".to_string()]);
    assert_eq!(p, vec!["/w/a".to_string(), "/w/b".to_string()]);
}

fn output(code: i32, stdout: &str, stderr: &str) -> Output {
    Output { code, stdout: stdout.to_string(), stderr: stderr.to_string() }
}

#[test]
fn bun_probe_reports_missing_tool_and_capture_errors() {
    let o = luna_cli::deps::probes::bun::probe(false, &Ok(output(0, "", "")));
    assert_eq!(o.state, ToolchainState::Failed);
    assert_eq!(o.diagnostics, vec!["bun is not installed".to_string()]);
    let o = luna_cli::deps::probes::bun::probe(true, &Err("boom".to_string()));
    assert_eq!(o.diagnostics, vec!["bun outdated failed: boom".to_string()]);
    let o = luna_cli::deps::probes::bun::probe(true, &Ok(output(0, "", "")));
    assert_eq!(o.state, ToolchainState::UpToDate);
}

#[test]
fn cargo_probe_paths() {
    let probe = luna_cli::deps::probes::cargo::probe;
    assert_eq!(probe(false, false, false, &Err("x".into())).state, ToolchainState::UpToDate);
    assert_eq!(probe(true, false, true, &Err("x".into())).diagnostics, vec!["cargo is not installed".to_string()]);
    let o = probe(true, true, true, &Ok(output(2, "", " bad \n")));
    assert_eq!(o.diagnostics, vec!["`cargo outdated` failed (exit 2): bad".to_string()]);
    let json = r#"{"dependencies": [{"name": "serde", "project": "1.0.1", "compat": "1.0.9"}]}"#;
    let o = probe(true, true, true, &Ok(output(1, json, "")));
    assert_eq!(o.state, ToolchainState::Outdated);
    assert_eq!(o.rows.len(), 1);
    assert_eq!(o.diagnostics, vec!["Latest column omitted for Cargo in v1 (OQ-1)".to_string()]);
}

#[test]
fn go_probe_collects_rows_and_diagnostics() {
    let probe = luna_cli::deps::probes::go::probe;
    let modules = vec![
        ("/w/a".to_string(), "a".to_string(), Ok(output(0, "m v1.0.0 [v1.1.0]\n", ""))),
        ("/w/b".to_string(), "b".to_string(), Err("no go".to_string())),
    ];
    let o = probe(true, &modules);
    assert_eq!(o.state, ToolchainState::Outdated);
    assert_eq!(o.rows[0].source_path.as_deref(), Some("/w/a"));
    assert_eq!(o.diagnostics, vec!["b: no go".to_string()]);
    assert_eq!(probe(false, &[]).state, ToolchainState::UpToDate);
}

#[test]
fn uv_probe_stops_at_first_error() {
    let probe = luna_cli::deps::probes::uv::probe;
    let projects = vec![
        ("/w".to_string(), Ok(output(0, "Update a v1 -> v2\n", ""))),
        ("/x".to_string(), Err("spawn".to_string())),
    ];
    let o = probe(true, &projects);
    assert_eq!(o.state, ToolchainState::Failed);
    assert_eq!(o.diagnostics, vec!["uv lock failed: spawn".to_string()]);
}

#[test]
fn probe_outcome_constructors() {
    assert_eq!(ProbeOutcome::outdated(Vec::new()).state, ToolchainState::UpToDate);
    let row = DependencyRow::outdated(ToolchainKind::Go, "m".into(), "1".into(), Some("2".into()), None);
    let o = ProbeOutcome::outdated(vec![row]).with_diagnostic("note".into());
    assert_eq!(o.state, ToolchainState::Outdated);
    assert_eq!(o.diagnostics, vec!["note".to_string()]);
}

#[test]
fn eligible_kinds_keep_report_order() {
    assert_eq!(eligible_kinds(false, false, false), vec![ToolchainKind::Proto, ToolchainKind::Bun]);
    assert_eq!(
        eligible_kinds(true, true, true),
        vec![ToolchainKind::Proto, ToolchainKind::Rust, ToolchainKind::Bun, ToolchainKind::Uv, ToolchainKind::Go]
    );
}

fn snapshot(kind: ToolchainKind, state: ToolchainState, rows: Vec<DependencyRow>) -> ToolchainSnapshot {
    ToolchainSnapshot {
        kind,
        label: kind.label().to_string(),
        state,
        elapsed_ms: 0,
        started_at: None,
        finished_at: None,
        rows,
        diagnostics: Vec::new(),
    }
}

#[test]
fn outdated_kinds_selects_snapshots_with_updates() {
    let row = DependencyRow::outdated(ToolchainKind::Bun, "vite".into(), "1".into(), Some("2".into()), None);
    let snaps = vec![
        snapshot(ToolchainKind::Proto, ToolchainState::UpToDate, Vec::new()),
        snapshot(ToolchainKind::Bun, ToolchainState::Outdated, vec![row]),
        snapshot(ToolchainKind::Go, ToolchainState::Outdated, Vec::new()),
    ];
    assert_eq!(outdated_kinds(&snaps), vec![ToolchainKind::Bun]);
}

fn text(s: &str) -> Option<JsonScalar> {
    Some(JsonScalar { text: Some(s.to_string()), flag: None, rendered: format!("\"{s}\"") })
}

fn flag(b: bool) -> Option<JsonScalar> {
    Some(JsonScalar { text: None, flag: Some(b), rendered: b.to_string() })
}

#[test]
fn cargo_rows_from_parsed_entries() {
    let entries = vec![
        vec![text("serde"), text("1.0.100"), text("1.0.200")],
        vec![text("anyhow"), text("1.0.0"), text("1.0.0")],
        vec![text("regex"), text("1.5.0"), text("---")],
        vec![text(""), text("1.0.0"), text("2.0.0")],
        vec![text("toml"), None, text("0.9.0")],
    ];
    let rows = cargo_rows_from(&entries);
    assert_eq!(rows.len(), 1);
    assert_eq!(rows[0].dependency, "serde");
    assert_eq!(rows[0].current, "1.0.100");
    assert_eq!(rows[0].newest.as_deref(), Some("1.0.200"));
    assert_eq!(rows[0].latest, None);
    assert!(cargo_rows_from(&Vec::new()).is_empty());
}

#[test]
fn proto_rows_from_parsed_entries() {
    let entries = vec![
        ("node".to_string(), vec![flag(true), text("20.1.0"), text("20.9.0"), text("22.0.0")]),
        ("bun".to_string(), vec![flag(false), text("1.1.0"), text("1.1.0"), text("1.1.0")]),
        ("go".to_string(), vec![flag(true), None, None, text("1.23.0")]),
    ];
    let rows = proto_rows_from(&entries);
    assert_eq!(rows.len(), 2);
    assert_eq!(rows[0].dependency, "node");
    assert_eq!(rows[0].current, "20.1.0");
    assert_eq!(rows[0].newest.as_deref(), Some("20.9.0"));
    assert_eq!(rows[0].latest.as_deref(), Some("22.0.0"));
    assert_eq!(rows[1].dependency, "go");
    assert_eq!(rows[1].current, "—");
    assert_eq!(rows[1].newest, None);
}
