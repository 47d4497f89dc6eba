//! The uv adapter: `pyproject.toml`, `uv.lock` and `uv sync`.
use vstd::prelude::*;
use crate::adapters::{AdapterKind, suffixed};
use crate::config::LunaConfig;
use crate::diagnostics::{
    DoctorCheck, CheckView, InventoryItem, ItemView, check_views, item_views, item_v, ok_check, warn_check, ok, warn,
    push_check, push_item,
};
use crate::formats::{toml_array, toml_array_at, opt_strs_view};
use crate::text::{trim, split_once, trim_chars, trim_str, split_once_str, chars_of, string_from, string_of, views};

verus! {

/// The uv backend.
pub struct UvBackend;

/// The checks `doctor` reports for uv, given which of its files exist and
/// whether a uv workspace was found.
pub open spec fn uv_doctor_spec(config: LunaConfig, manifest: bool, lockfile: bool, detected: bool) -> Seq<CheckView> {
    let l = config.adapters.uv.lockfile@;
    (if manifest {
        seq![ok_check("uv-manifest"@, "pyproject.toml present"@)]
    } else {
        seq![]
    }) + (if lockfile {
        seq![ok_check("uv-lockfile"@, l + " present"@)]
    } else if detected {
        seq![warn_check("uv-lockfile"@, l + " missing"@, Some("Run `uv sync`"@))]
    } else {
        seq![]
    })
}

/// The name and version of a PEP 508 requirement: split at the first `>=`,
/// with `*` as the version when there is none.
pub open spec fn requirement_parts(s: Seq<char>) -> (Seq<char>, Seq<char>) {
    match split_once(s, ">="@) {
        Some((n, v)) => (trim(n), trim(v)),
        None => (trim(s), "*"@),
    }
}

/// The items for the entries of `project.dependencies`: each string entry,
/// read from `source`.
pub open spec fn uv_items(source: Seq<char>, deps: Seq<Option<Seq<char>>>) -> Seq<ItemView>
    decreases deps.len(),
{
    if deps.len() == 0 {
        seq![]
    } else {
        uv_items(source, deps.drop_last()) + match deps.last() {
            Some(s) => {
                let p = requirement_parts(s);
                seq![item_v("uv"@, p.0, p.1, source, "pypi"@)]
            },
            None => seq![],
        }
    }
}

/// The key path of the dependency list in `pyproject.toml`.
pub open spec fn project_dependencies_path() -> Seq<Seq<char>> {
    seq!["project"@, "dependencies"@]
}

/// The uv inventory of a `pyproject.toml` text: nothing when it does not parse
/// or has no `project.dependencies` array.
pub open spec fn uv_inventory_spec(config: LunaConfig, text: Seq<char>) -> Seq<ItemView> {
    match toml_array_at(text, project_dependencies_path()) {
        Some(deps) => uv_items(config.adapters.uv.manifest@, deps),
        None => seq![],
    }
}

/// The arguments of `uv sync`.
pub open spec fn uv_sync_args_spec(locked: bool) -> Seq<Seq<char>> {
    if locked {
        seq!["sync"@, "--locked"@]
    } else {
        seq!["sync"@]
    }
}

impl UvBackend {
    /// This backend's adapter.
    pub fn kind(&self) -> (r: AdapterKind)
        ensures
            r == AdapterKind::Uv,
    {
        AdapterKind::Uv
    }

    /// The arguments of `uv sync`, with `--locked` when asked for.
    pub fn sync_args(&self, locked: bool) -> (r: Vec<String>)
        ensures
            views(r@) == uv_sync_args_spec(locked),
    {
        let mut args: Vec<String> = Vec::new();
        args.push(string_from("sync"));
        if locked {
            args.push(string_from("--locked"));
        }
        assert(views(args@) =~= uv_sync_args_spec(locked));
        args
    }

    /// The checks `doctor` reports, given which of the configured files exist and
    /// whether a uv workspace was found.
    pub fn doctor(&self, config: &LunaConfig, manifest: bool, lockfile: bool, detected: bool) -> (r: Vec<DoctorCheck>)
        ensures
            check_views(r@) == uv_doctor_spec(*config, manifest, lockfile, detected),
    {
        let mut checks: Vec<DoctorCheck> = Vec::new();
        if manifest {
            push_check(&mut checks, ok("uv-manifest", string_from("pyproject.toml present")));
        }
        if lockfile {
            push_check(&mut checks, ok("uv-lockfile", suffixed(config.adapters.uv.lockfile.as_str(), " present")));
        } else if detected {
            push_check(
                &mut checks,
                warn("uv-lockfile", suffixed(config.adapters.uv.lockfile.as_str(), " missing"), string_from("Run `uv sync`")),
            );
        }
        assert(check_views(checks@) =~= uv_doctor_spec(*config, manifest, lockfile, detected));
        checks
    }

    /// The dependencies declared in a `pyproject.toml` text.
    pub fn export_inventory(&self, config: &LunaConfig, text: &str) -> (r: Vec<InventoryItem>)
        ensures
            item_views(r@) == uv_inventory_spec(*config, text@),
    {
        let path = crate::formats::strings(&["project", "dependencies"]);
        proof {
            assert(views(path@) =~= project_dependencies_path());
        }
        match toml_array(text, &path) {
            Some(deps) => uv_inventory_from(config.adapters.uv.manifest.as_str(), &deps),
            None => {
                let items: Vec<InventoryItem> = Vec::new();
                assert(item_views(items@) =~= seq![]);
                items
            },
        }
    }
}

/// The inventory items for the parsed `project.dependencies` strings of the
/// `pyproject.toml` read from `src`, in order: `name>=version` splits at `>=`,
/// any other requirement is the name with version `*`.
pub fn uv_inventory_from(src: &str, deps: &Vec<Option<String>>) -> (r: Vec<InventoryItem>)
    ensures
        item_views(r@) == uv_items(src@, opt_strs_view(deps@)),
{
    let ghost dv = opt_strs_view(deps@);
    let mut items: Vec<InventoryItem> = Vec::new();
    let mut i: usize = 0;
    while i < deps.len()
        invariant
            dv == opt_strs_view(deps@),
            i <= deps@.len(),
            item_views(items@) == uv_items(src@, dv.take(i as int)),
        decreases deps@.len() - i,
    {
        proof {
            assert(dv.take(i + 1).drop_last() =~= dv.take(i as int));
        }
        match &deps[i] {
            Some(s) => {
                let cs = chars_of(s.as_str());
                let (name, version) = match split_once_str(cs.as_slice(), ">=") {
                    Some((n, v)) => (trim_chars(n.as_slice()), trim_chars(v.as_slice())),
                    None => (trim_chars(cs.as_slice()), chars_of("*")),
                };
                let x = InventoryItem::new("uv", string_of(name.as_slice()), string_of(version.as_slice()))
                    .with_source(src).with_ecosystem("pypi");
                push_item(&mut items, x);
            },
            None => {},
        }
        proof {
            assert(item_views(items@) =~= uv_items(src@, dv.take(i + 1)));
        }
        i = i + 1;
    }
    proof {
        assert(dv.take(deps@.len() as int) =~= dv);
    }
    items
}

} // verus!
