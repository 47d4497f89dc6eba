use luna_cli::adapters::bun::{bun_inventory_from, BunBackend};
use luna_cli::formats::JsonScalar;
use luna_cli::adapters::cargo::{parse_cargo_lock, CargoBackend};
use luna_cli::adapters::go::{parse_go_mod, GoBackend};
use luna_cli::adapters::moon::MoonBackend;
use luna_cli::adapters::pixi::PixiBackend;
use luna_cli::adapters::proto::ProtoBackend;
use luna_cli::adapters::uv::{uv_inventory_from, UvBackend};
use luna_cli::adapters::{dependency_entries, inventory_kinds, AdapterKind};
use luna_cli::config::LunaConfig;
use luna_cli::diagnostics::DoctorStatus;

#[test]
fn adapter_labels_round_trip() {
    for k in [
        AdapterKind::Pixi,
        AdapterKind::Moon,
        AdapterKind::Proto,
        AdapterKind::Bun,
        AdapterKind::Uv,
        AdapterKind::Cargo,
        AdapterKind::Go,
        AdapterKind::Native,
    ] {
        assert_eq!(AdapterKind::from_label(k.label()), k);
    }
    assert_eq!(AdapterKind::from_label("rust"), AdapterKind::Cargo);
    assert_eq!(AdapterKind::from_label("npm"), AdapterKind::Native);
    assert_eq!(inventory_kinds()[0], AdapterKind::Pixi);
    assert_eq!(inventory_kinds()[6], AdapterKind::Moon);
}

#[test]
fn bun_inventory_reads_both_tables() {
    let text = r#"{"dependencies": {"vite": "^7.3.4"}, "devDependencies": {"oxlint": "1.0.0", "weird": 3}}"#;
    let items = BunBackend.export_inventory("package.json", text).unwrap();
    assert_eq!(items.len(), 3);
    assert_eq!(items[0].name, "vite");
    assert_eq!(items[0].version, "^7.3.4");
    assert_eq!(items[0].ecosystem, "npm");
    assert_eq!(items[0].source_path.as_deref(), Some("package.json"));
    assert_eq!(items[2].version, "3");
    assert!(BunBackend.export_inventory("package.json", "{").is_none());
}

#[test]
fn bun_doctor_warns_on_missing_lockfile() {
    let config = LunaConfig::default();
    let checks = BunBackend.doctor(&config, true, false);
    assert_eq!(checks.len(), 2);
    assert_eq!(checks[0].label, "package.json present");
    assert_eq!(checks[1].status, DoctorStatus::Warn);
    assert_eq!(checks[1].label, "bun.lock missing");
    assert_eq!(checks[1].detail.as_deref(), Some("Run `bun install`"));
    assert!(BunBackend.doctor(&config, false, false).is_empty());
}

#[test]
fn bun_sync_args_apply_release_age() {
    let args = BunBackend.sync_args(14);
    assert_eq!(args, vec!["install", "--ignore-scripts", "--minimum-release-age=1209600"]);
}

#[test]
fn cargo_lock_packages() {
    let text = "version = 4\n\n[[package]]\nname = \"anyhow\"\nversion = \"1.0.86\"\n\n[[package]]\nname = \"serde\"\nversion = \"1.0.200\"\ndependencies = [\n \"serde_derive\",\n]\n";
    let items = parse_cargo_lock("Cargo.lock", text);
    assert_eq!(items.len(), 2);
    assert_eq!(items[0].name, "anyhow");
    assert_eq!(items[0].version, "1.0.86");
    assert_eq!(items[1].name, "serde");
    assert_eq!(items[1].ecosystem, "cargo");
}

#[test]
fn cargo_inventory_falls_back_to_manifest() {
    let config = LunaConfig::default();
    let manifest = "[package]\nname = \"x\"\n\n[dependencies]\nserde = \"1\"\n# comment\nclap = { version = \"4\" }\n\n[dev-dependencies]\nproptest = \"1\"\n";
    let items = CargoBackend.export_inventory(&config, Some(manifest), None);
    assert_eq!(items.len(), 2);
    assert_eq!(items[0].name, "serde");
    assert_eq!(items[0].version, "1");
    assert_eq!(items[0].source_path.as_deref(), Some("Cargo.toml"));
    assert_eq!(items[1].name, "clap");
    assert!(CargoBackend.export_inventory(&config, None, Some("")).is_empty());
}

#[test]
fn go_mod_requires() {
    let text = "module example.com/m\n\ngo 1.22\n\nrequire github.com/a/b v1.2.3\n\nrequire (\n\tgithub.com/c/d v0.1.0 // indirect\n\tgolang.org/x/e v0.2.0\n)\n";
    let items = parse_go_mod("go.mod", text);
    assert_eq!(items.len(), 3);
    assert_eq!(items[0].name, "github.com/a/b");
    assert_eq!(items[0].version, "v1.2.3");
    assert_eq!(items[1].name, "github.com/c/d");
    assert_eq!(items[2].name, "golang.org/x/e");
    let all = GoBackend.export_inventory(true, &[("a/go.mod".to_string(), text.to_string())]);
    assert_eq!(all.len(), 3);
    assert!(GoBackend.export_inventory(false, &[("a/go.mod".to_string(), text.to_string())]).is_empty());
}

#[test]
fn go_doctor() {
    let config = LunaConfig::default();
    assert_eq!(GoBackend.doctor(&config, true)[0].label, "go.work present");
    let missing = GoBackend.doctor(&config, false);
    assert_eq!(missing[0].status, DoctorStatus::Warn);
    assert!(missing[0].detail.is_none());
}

#[test]
fn moon_doctor_and_capture_args() {
    let mut config = LunaConfig::default();
    assert_eq!(MoonBackend.doctor(&config, false)[0].label, ".moon/ missing");
    assert!(MoonBackend.detect(&config, true));
    config.compat.moon.enabled = false;
    assert_eq!(MoonBackend.doctor(&config, true)[0].label, "Moon compatibility disabled");
    assert!(!MoonBackend.detect(&config, true));
    assert_eq!(MoonBackend::capture_args(&["tasks"], true), vec!["-q", "tasks"]);
    assert_eq!(MoonBackend::capture_args(&["tasks"], false), vec!["tasks"]);
}

#[test]
fn pixi_inventory_and_lock() {
    let config = LunaConfig::default();
    let text = "[workspace]\nname = \"luna\"\n\n[dependencies]\njust = \"*\"\nwatchexec = \"2.*\"\n\n[dependencies.extra]\nversion = \"1\"\n\n[tasks]\nx = \"y\"\n";
    let items = PixiBackend.export_inventory(&config, Some(text));
    assert_eq!(items.len(), 3);
    assert_eq!(items[0].name, "just");
    assert_eq!(items[0].ecosystem, "conda");
    assert_eq!(items[1].version, "2.*");
    assert_eq!(items[2].name, "version");
    let ok = PixiBackend.lock_outcome(Some(0));
    assert!(ok.ok && ok.message.is_none());
    let bad = PixiBackend.lock_outcome(Some(3));
    assert!(!bad.ok);
    assert_eq!(bad.message.as_deref(), Some("pixi install exited with 3"));
    assert_eq!(PixiBackend.lock_outcome(None).message.as_deref(), Some("pixi not configured"));
}

#[test]
fn proto_pins() {
    let items = ProtoBackend.export_inventory(Some("# pins\nnode = \"20.0.0\"\nbun = 1.1.0\n\n"));
    assert_eq!(items.len(), 2);
    assert_eq!(items[0].name, "node");
    assert_eq!(items[0].version, "\"20.0.0\"");
    assert_eq!(items[1].version, "1.1.0");
    assert!(ProtoBackend.export_inventory(None).is_empty());
    assert_eq!(ProtoBackend.doctor(false)[0].detail.as_deref(), Some("Toolchain pins may be missing"));
}

#[test]
fn uv_inventory_and_sync_args() {
    let config = LunaConfig::default();
    let text = "[project]\nname = \"api\"\ndependencies = [\"fastapi>=0.136\", \"httpx\"]\n";
    let items = UvBackend.export_inventory(&config, text);
    assert_eq!(items.len(), 2);
    assert_eq!(items[0].name, "fastapi");
    assert_eq!(items[0].version, "0.136");
    assert_eq!(items[1].version, "*");
    assert!(UvBackend.export_inventory(&config, "not toml [").is_empty());
    assert_eq!(UvBackend.sync_args(true), vec!["sync", "--locked"]);
    let checks = UvBackend.doctor(&config, true, false, true);
    assert_eq!(checks[1].label, "uv.lock missing");
}

#[test]
fn dependency_entries_strip_quotes() {
    let e = dependency_entries("[dependencies]\na = \"1\"\n", false);
    assert_eq!(e, vec![("a".to_string(), "1".to_string())]);
}

#[test]
fn bun_inventory_from_parsed_tables() {
    let scalar = |t: Option<&str>, rendered: &str| JsonScalar {
        text: t.map(String::from),
        flag: None,
        rendered: rendered.to_string(),
    };
    let tables = vec![
        Some(vec![("react".to_string(), scalar(Some("^18.2.0"), "\"^18.2.0\""))]),
        None,
        Some(vec![("odd".to_string(), scalar(None, "42")), ("vitest".to_string(), scalar(Some("1.0.0"), "\"1.0.0\""))]),
    ];
    let items = bun_inventory_from("package.json", &tables);
    assert_eq!(items.len(), 3);
    assert_eq!((items[0].name.as_str(), items[0].version.as_str()), ("react", "^18.2.0"));
    assert_eq!((items[1].name.as_str(), items[1].version.as_str()), ("odd", "42"));
    assert_eq!((items[2].name.as_str(), items[2].version.as_str()), ("vitest", "1.0.0"));
    assert_eq!(items[0].ecosystem, "npm");
    assert_eq!(items[0].source_path.as_deref(), Some("package.json"));
}

#[test]
fn uv_inventory_from_parsed_dependencies() {
    let deps = vec![Some("fastapi >= 0.110".to_string()), None, Some("httpx".to_string())];
    let items = uv_inventory_from("pyproject.toml", &deps);
    assert_eq!(items.len(), 2);
    assert_eq!((items[0].name.as_str(), items[0].version.as_str()), ("fastapi", "0.110"));
    assert_eq!((items[1].name.as_str(), items[1].version.as_str()), ("httpx", "*"));
    assert_eq!(items[1].ecosystem, "pypi");
    assert_eq!(items[1].adapter, "uv");
}
