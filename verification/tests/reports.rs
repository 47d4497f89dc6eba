use luna_cli::config::compat::{from_legacy, LegacyFacts};
use luna_cli::config::{FirewallPolicy, SCHEMA_VERSION};
use luna_cli::deps::model::{DependencyRow, ToolchainKind, ToolchainSnapshot, ToolchainState};
use luna_cli::deps::ui::{
    latest_tone, newest_tone, outdated_groups, release_age_cell, section_header_line, sorted_rows, state_note,
    trim_dependency, trim_failure_body, workspaces_text, release_age_intro, Tone, DEP_BUDGET,
};
use luna_cli::output::OutdatedReport;
use luna_cli::order::lex_less;
use luna_cli::runner::{enriched_path, missing_command};

#[test]
fn section_header_line_is_fixed_format() {
    assert_eq!(section_header_line("bun"), "--- BUN ---");
    assert_eq!(section_header_line("Release Age"), "--- RELEASE AGE ---");
}

#[test]
fn trim_dependency_adds_ellipsis() {
    let trimmed = trim_dependency("@scope/a-very-long-package-name-here");
    assert!(trimmed.ends_with('…'));
    assert_eq!(trimmed.chars().count(), DEP_BUDGET);
}

#[test]
fn trim_dependency_keeps_short_names() {
    assert_eq!(trim_dependency("vite"), "vite");
}

#[test]
fn newest_style_respects_cutoff() {
    assert!(matches!(newest_tone(Some(21), 14), Tone::Success));
    assert!(matches!(newest_tone(Some(3), 14), Tone::Failure));
    assert!(matches!(newest_tone(None, 14), Tone::Muted));
    assert!(matches!(latest_tone(true), Tone::Caution));
}

#[test]
fn release_age_cell_formats_both() {
    let mut row = DependencyRow::outdated(
        ToolchainKind::Bun,
        "vite".into(),
        "7.3.4".into(),
        Some("7.3.5".into()),
        Some("8.0.14".into()),
    );
    row.newest_release_age_days = Some(21);
    row.latest_release_age_days = Some(8);
    assert_eq!(release_age_cell(&row, "newest"), "newest 21d · latest 8d");
    row.newest_release_age_days = None;
    row.latest_release_age_days = None;
    assert_eq!(release_age_cell(&row, "newest"), "—");
    assert_eq!(workspaces_text(&row), "—");
}

#[test]
fn failure_body_keeps_twelve_lines() {
    let body: String = (0..20).map(|i| format!("  line {i}  \n\n")).collect();
    let t = trim_failure_body(&body);
    assert_eq!(t.lines().count(), 12);
    assert!(t.starts_with("line 0\nline 1"));
    assert_eq!(state_note(ToolchainState::Failed), "check failed");
}

fn row(ws: &[&str], name: &str) -> DependencyRow {
    let mut r = DependencyRow::outdated(ToolchainKind::Bun, name.into(), "1".into(), Some("2".into()), None);
    r.workspaces = ws.iter().map(|s| s.to_string()).collect();
    r
}

#[test]
fn rows_sort_by_workspace_then_name_stably() {
    let rows = vec![row(&["web"], "b"), row(&["app"], "z"), row(&["web"], "a"), row(&["app"], "z")];
    assert_eq!(sorted_rows(&rows), vec![1, 3, 2, 0]);
    assert!(lex_less(&['a'], &['a', 'b']));
    assert!(!lex_less(&['b'], &['a', 'b']));
}

#[test]
fn outdated_groups_in_report_order() {
    let snap = |kind: ToolchainKind, rows: Vec<DependencyRow>| ToolchainSnapshot {
        kind,
        label: kind.label().to_string(),
        state: if rows.is_empty() { ToolchainState::UpToDate } else { ToolchainState::Outdated },
        elapsed_ms: 0,
        started_at: None,
        finished_at: None,
        rows,
        diagnostics: Vec::new(),
    };
    let snaps = vec![
        snap(ToolchainKind::Go, vec![row(&[], "m")]),
        snap(ToolchainKind::Bun, vec![row(&["web"], "b"), row(&["app"], "a")]),
        snap(ToolchainKind::Proto, vec![]),
    ];
    let groups = outdated_groups(&snaps);
    assert_eq!(groups.len(), 2);
    assert_eq!(groups[0].kind, ToolchainKind::Bun);
    assert_eq!(groups[0].snapshot, 1);
    assert_eq!(groups[0].rows, vec![1, 0]);
    assert_eq!(groups[1].kind, ToolchainKind::Go);
    let report = OutdatedReport::from_snapshots("/r", &snaps, ".luna/outdated.json");
    assert!(report.has_outdated);
    assert_eq!(report.toolchains.len(), 3);
}

#[test]
fn from_legacy_with_pixi_and_env() {
    let facts = LegacyFacts {
        dir_name: Some("repo".into()),
        pyproject: Some("[tool.uv.workspace]\nmembers = [\"apps/api\", 3]\n".into()),
        pixi_toml: true,
        moon_dir: false,
        min_release_age_var: Some("7".into()),
        firewall_var: Some("1".into()),
    };
    let config = from_legacy(&facts);
    assert_eq!(config.schema, SCHEMA_VERSION);
    assert_eq!(config.workspace.name, "repo");
    assert_eq!(config.policy.min_release_age_days, 7);
    assert_eq!(config.policy.firewall, FirewallPolicy::Socket);
    assert!(config.policy.frozen_ci);
    assert_eq!(config.bootstrap.provider, "pixi");
    assert_eq!(config.adapters.uv.workspace_members, vec!["apps/api".to_string()]);
    assert!(!config.compat.moon.enabled);
    assert_eq!(config.adapters.bun.manifest, "package.json");
    assert_eq!(config.adapters.go.workspace, "go.work");
}

#[test]
fn from_legacy_defaults() {
    let facts = LegacyFacts {
        dir_name: None,
        pyproject: None,
        pixi_toml: false,
        moon_dir: true,
        min_release_age_var: None,
        firewall_var: Some("false".into()),
    };
    let config = from_legacy(&facts);
    assert_eq!(config.workspace.name, "luna");
    assert_eq!(config.policy.min_release_age_days, 14);
    assert_eq!(config.policy.firewall, FirewallPolicy::OptIn);
    assert_eq!(config.bootstrap.provider, "proto");
    assert!(config.bootstrap.compat_providers.is_empty());
}

#[test]
fn runner_paths_and_messages() {
    assert_eq!(enriched_path(Some("/r/node_modules/.bin".into()), None, "/usr/bin"), "/r/node_modules/.bin:/usr/bin");
    assert_eq!(enriched_path(None, None, "/usr/bin"), "/usr/bin");
    assert_eq!(missing_command("bun"), "missing required command: `bun` (is it installed and on PATH?)");
}

#[test]
fn release_age_intro_names_the_cooldown() {
    assert!(release_age_intro(14).starts_with("Luna waits 14 days after a package is published"));
}
