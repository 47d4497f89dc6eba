//! The Pixi adapter: `pixi.toml`, its `[dependencies]` and `pixi install`.
use vstd::prelude::*;
use crate::adapters::{AdapterKind, LockOutcome, suffixed, dependency_entries, dependency_entries_spec, pairs_view};
use crate::config::LunaConfig;
use crate::diagnostics::{
    DoctorCheck, CheckView, InventoryItem, ItemView, check_views, item_views, item_v, ok_check, warn_check, ok, warn,
    push_check, push_item, item,
};
use crate::num::int_text;
use crate::planner::Step;
use crate::text::{string_from, str_eq, push_str};

verus! {

/// The Pixi backend.
pub struct PixiBackend;

/// Whether Pixi is in use: the adapter enabled and its manifest present.
pub open spec fn pixi_detect_spec(config: LunaConfig, manifest: bool) -> bool {
    config.adapters.pixi.enabled && manifest
}

/// The checks `doctor` reports for Pixi, given whether its manifest exists.
pub open spec fn pixi_doctor_spec(config: LunaConfig, manifest: bool) -> Seq<CheckView> {
    let m = config.adapters.pixi.manifest@;
    if !config.adapters.pixi.enabled {
        seq![ok_check("pixi-adapter"@, "Pixi adapter disabled"@)]
    } else if manifest {
        seq![ok_check("pixi-adapter"@, m + " present"@)]
    } else {
        seq![warn_check("pixi-adapter"@, m + " missing"@, Some("Run `pixi init` or enable sync"@))]
    }
}

/// The Pixi inventory: the entries of `[dependencies]` (and its sub-tables) of
/// the manifest text, when the adapter is enabled and the manifest exists.
pub open spec fn pixi_inventory_spec(config: LunaConfig, text: Option<Seq<char>>) -> Seq<ItemView> {
    match text {
        Some(t) => if config.adapters.pixi.enabled {
            dependency_entries_spec(t, true).map_values(
                |e: (Seq<char>, Seq<char>)| item_v("pixi"@, e.0, e.1, config.adapters.pixi.manifest@, "conda"@),
            )
        } else {
            seq![]
        },
        None => seq![],
    }
}

impl PixiBackend {
    /// This backend's adapter.
    pub fn kind(&self) -> (r: AdapterKind)
        ensures
            r == AdapterKind::Pixi,
    {
        AdapterKind::Pixi
    }

    /// Whether Pixi is in use, given whether its manifest exists.
    pub fn detect(&self, config: &LunaConfig, manifest: bool) -> (r: bool)
        ensures
            r == pixi_detect_spec(*config, manifest),
    {
        config.adapters.pixi.enabled && manifest
    }

    /// What a lock reports: `None` when Pixi is not in use (nothing ran), else
    /// the exit code of `pixi install`.
    pub fn lock_outcome(&self, install_exit: Option<i32>) -> (r: LockOutcome)
        ensures
            match install_exit {
                None => r.ok && r.message is Some && r.message->0@ == "pixi not configured"@,
                Some(code) => r.ok == (code == 0) && match r.message {
                    None => code == 0,
                    Some(m) => code != 0 && m@ == "pixi install exited with "@ + int_text(code as int),
                },
            },
    {
        match install_exit {
            None => LockOutcome { ok: true, message: Some(string_from("pixi not configured")) },
            Some(code) => {
                if code == 0 {
                    LockOutcome { ok: true, message: None }
                } else {
                    let mut m = string_from("pixi install exited with ");
                    crate::num::push_i32(&mut m, code);
                    LockOutcome { ok: false, message: Some(m) }
                }
            },
        }
    }

    /// Whether a step is `pixi install`, which this backend runs itself.
    pub fn is_install_step(&self, step: &Step) -> (r: bool)
        ensures
            r == (step.program@ == "pixi"@ && step.args@.len() > 0 && step.args@[0]@ == "install"@),
    {
        str_eq(step.program.as_str(), "pixi") && step.args.len() > 0 && str_eq(step.args[0].as_str(), "install")
    }

    /// The checks `doctor` reports, given whether the manifest exists.
    pub fn doctor(&self, config: &LunaConfig, manifest: bool) -> (r: Vec<DoctorCheck>)
        ensures
            check_views(r@) == pixi_doctor_spec(*config, manifest),
    {
        let mut checks: Vec<DoctorCheck> = Vec::new();
        if !config.adapters.pixi.enabled {
            push_check(&mut checks, ok("pixi-adapter", string_from("Pixi adapter disabled")));
        } else if manifest {
            push_check(&mut checks, ok("pixi-adapter", suffixed(config.adapters.pixi.manifest.as_str(), " present")));
        } else {
            push_check(
                &mut checks,
                warn(
                    "pixi-adapter",
                    suffixed(config.adapters.pixi.manifest.as_str(), " missing"),
                    string_from("Run `pixi init` or enable sync"),
                ),
            );
        }
        assert(check_views(checks@) =~= pixi_doctor_spec(*config, manifest));
        checks
    }

    /// The Pixi inventory, given the manifest text (`None` when it does not exist).
    pub fn export_inventory(&self, config: &LunaConfig, text: Option<&str>) -> (r: Vec<InventoryItem>)
        ensures
            item_views(r@) == pixi_inventory_spec(
                *config,
                match text {
                    Some(t) => Some(t@),
                    None => None,
                },
            ),
    {
        let mut items: Vec<InventoryItem> = Vec::new();
        let t = match text {
            Some(t) => t,
            None => {
                assert(item_views(items@) =~= seq![]);
                return items;
            },
        };
        if !config.adapters.pixi.enabled {
            assert(item_views(items@) =~= seq![]);
            return items;
        }
        let entries = dependency_entries(t, true);
        let ghost ev = pairs_view(entries@);
        let src = config.adapters.pixi.manifest.as_str();
        let mut i: usize = 0;
        while i < entries.len()
            invariant
                ev == pairs_view(entries@),
                i <= entries@.len(),
                item_views(items@) == ev.take(i as int).map_values(
                    |e: (Seq<char>, Seq<char>)| item_v("pixi"@, e.0, e.1, src@, "conda"@),
                ),
            decreases entries@.len() - i,
        {
            let x = item("pixi", entries[i].0.as_str(), entries[i].1.as_str(), src, "conda");
            push_item(&mut items, x);
            proof {
                assert(ev[i as int] == (entries@[i as int].0@, entries@[i as int].1@));
                assert(item_views(items@) =~= ev.take(i + 1).map_values(
                    |e: (Seq<char>, Seq<char>)| item_v("pixi"@, e.0, e.1, src@, "conda"@),
                ));
            }
            i = i + 1;
        }
        proof {
            assert(ev.take(entries@.len() as int) =~= ev);
        }
        items
    }
}

} // verus!
