//! The Bun adapter: `package.json` and `bun.lock`.
use vstd::prelude::*;
use crate::adapters::{AdapterKind, suffixed};
use crate::config::LunaConfig;
use crate::diagnostics::{
    DoctorCheck, CheckView, InventoryItem, ItemView, check_views, item_views, item_v, ok_check, warn_check, ok, warn,
    push_check, push_item,
};
use crate::formats::{JsonScalar, JsonScalarView, json_members, json_members_of, members_view, member_tables_view};
use crate::text::{string_from, views};

verus! {

/// The Bun backend.
pub struct BunBackend;

/// The checks `doctor` reports for Bun, given which of its files exist.
pub open spec fn bun_doctor_spec(config: LunaConfig, manifest: bool, lockfile: bool) -> Seq<CheckView> {
    let m = config.adapters.bun.manifest@;
    let l = config.adapters.bun.lockfile@;
    (if manifest {
        seq![ok_check("bun-manifest"@, m + " present"@)]
    } else {
        seq![]
    }) + (if lockfile {
        seq![ok_check("bun-lockfile"@, l + " present"@)]
    } else if manifest {
        seq![warn_check("bun-lockfile"@, l + " missing"@, Some("Run `bun install`"@))]
    } else {
        seq![]
    })
}

/// The version text of a `package.json` dependency: the string itself, or the
/// JSON rendering of anything else.
pub open spec fn npm_version(v: JsonScalarView) -> Seq<char> {
    match v.text {
        Some(t) => t,
        None => v.rendered,
    }
}

/// The inventory items for the members of one dependency table.
pub open spec fn bun_table_items(manifest: Seq<char>, members: Seq<(Seq<char>, JsonScalarView)>) -> Seq<ItemView> {
    members.map_values(|m: (Seq<char>, JsonScalarView)| item_v("bun"@, m.0, npm_version(m.1), manifest, "npm"@))
}

/// The inventory items for a list of dependency tables, in order.
pub open spec fn bun_items(manifest: Seq<char>, tables: Seq<Option<Seq<(Seq<char>, JsonScalarView)>>>) -> Seq<ItemView>
    decreases tables.len(),
{
    if tables.len() == 0 {
        seq![]
    } else {
        bun_items(manifest, tables.drop_last()) + match tables.last() {
            Some(m) => bun_table_items(manifest, m),
            None => seq![],
        }
    }
}

/// The tables of `package.json` that list dependencies.
pub open spec fn bun_dependency_keys() -> Seq<Seq<char>> {
    seq!["dependencies"@, "devDependencies"@]
}

/// The inventory of a `package.json` text, or `None` when it is not JSON.
pub open spec fn bun_inventory_spec(manifest: Seq<char>, text: Seq<char>) -> Option<Seq<ItemView>> {
    match json_members_of(text, bun_dependency_keys()) {
        Some(tables) => Some(bun_items(manifest, tables)),
        None => None,
    }
}

fn table_items(manifest: &str, members: &Vec<(String, JsonScalar)>, items: &mut Vec<InventoryItem>)
    ensures
        item_views(final(items)@) == item_views(old(items)@) + bun_table_items(manifest@, members_view(members@)),
{
    let ghost mv = members_view(members@);
    let ghost start = item_views(items@);
    let mut i: usize = 0;
    while i < members.len()
        invariant
            mv == members_view(members@),
            i <= members@.len(),
            item_views(items@) == start + bun_table_items(manifest@, mv.take(i as int)),
        decreases members@.len() - i,
    {
        let (name, value) = &members[i];
        let version = match &value.text {
            Some(t) => t.clone(),
            None => value.rendered.clone(),
        };
        let x = InventoryItem::new("bun", name.clone(), version).with_source(manifest).with_ecosystem("npm");
        proof {
            assert(mv[i as int] == (name@, value@));
            assert(x@ == item_v("bun"@, mv[i as int].0, npm_version(mv[i as int].1), manifest@, "npm"@));
        }
        push_item(items, x);
        proof {
            assert(bun_table_items(manifest@, mv.take(i + 1)) =~= bun_table_items(manifest@, mv.take(i as int)).push(
                item_v("bun"@, mv[i as int].0, npm_version(mv[i as int].1), manifest@, "npm"@),
            ));
        }
        i = i + 1;
    }
    proof {
        assert(mv.take(members@.len() as int) =~= mv);
    }
}

/// The arguments of `bun install`: lifecycle scripts off and the minimum
/// release age applied.
pub open spec fn bun_sync_args_spec(days: u64) -> Seq<Seq<char>> {
    seq![
        "install"@,
        "--ignore-scripts"@,
        "--minimum-release-age="@ + crate::num::decimal((days * crate::security::SECONDS_PER_DAY) as nat),
    ]
}

impl BunBackend {
    /// The arguments of `bun install` under a minimum release age of `days`.
    pub fn sync_args(&self, days: u64) -> (r: Vec<String>)
        requires
            days * crate::security::SECONDS_PER_DAY <= u64::MAX,
        ensures
            views(r@) == bun_sync_args_spec(days),
    {
        let mut args: Vec<String> = Vec::new();
        args.push(string_from("install"));
        args.push(string_from("--ignore-scripts"));
        args.push(crate::security::bun_min_release_age_arg(days));
        assert(views(args@) =~= bun_sync_args_spec(days));
        args
    }

    /// This backend's adapter.
    pub fn kind(&self) -> (r: AdapterKind)
        ensures
            r == AdapterKind::Bun,
    {
        AdapterKind::Bun
    }

    /// The checks `doctor` reports, given whether the configured manifest and
    /// lockfile exist.
    pub fn doctor(&self, config: &LunaConfig, manifest: bool, lockfile: bool) -> (r: Vec<DoctorCheck>)
        ensures
            check_views(r@) == bun_doctor_spec(*config, manifest, lockfile),
    {
        let mut checks: Vec<DoctorCheck> = Vec::new();
        if manifest {
            push_check(&mut checks, ok("bun-manifest", suffixed(config.adapters.bun.manifest.as_str(), " present")));
        }
        if lockfile {
            push_check(&mut checks, ok("bun-lockfile", suffixed(config.adapters.bun.lockfile.as_str(), " present")));
        } else if manifest {
            push_check(
                &mut checks,
                warn(
                    "bun-lockfile",
                    suffixed(config.adapters.bun.lockfile.as_str(), " missing"),
                    string_from("Run `bun install`"),
                ),
            );
        }
        assert(check_views(checks@) =~= bun_doctor_spec(*config, manifest, lockfile));
        checks
    }

    /// The dependencies and dev-dependencies listed in the `package.json` text
    /// read from `manifest`, or `None` when it is not JSON.
    pub fn export_inventory(&self, manifest: &str, text: &str) -> (r: Option<Vec<InventoryItem>>)
        ensures
            match r {
                Some(v) => bun_inventory_spec(manifest@, text@) == Some(item_views(v@)),
                None => bun_inventory_spec(manifest@, text@) is None,
            },
    {
        let keys = crate::formats::strings(&["dependencies", "devDependencies"]);
        proof {
            assert(views(keys@) =~= bun_dependency_keys());
        }
        match json_members(text, &keys) {
            Some(tables) => {
                assert(tables@.map_values(|o: Option<Vec<(String, JsonScalar)>>| match o {
                    Some(m) => Some(members_view(m@)),
                    None => None,
                }) =~= member_tables_view(tables@));
                Some(bun_inventory_from(manifest, &tables))
            },
            None => None,
        }
    }
}

/// The inventory items for the parsed `dependencies` and `devDependencies`
/// objects of a `package.json` read from `manifest` (`None` for one that is
/// not an object), in order.
pub fn bun_inventory_from(manifest: &str, tables: &Vec<Option<Vec<(String, JsonScalar)>>>) -> (r: Vec<InventoryItem>)
    ensures
        item_views(r@) == bun_items(manifest@, member_tables_view(tables@)),
{
    let ghost tv = member_tables_view(tables@);
    let mut items: Vec<InventoryItem> = Vec::new();
    let mut i: usize = 0;
    while i < tables.len()
        invariant
            tv == member_tables_view(tables@),
            i <= tables@.len(),
            item_views(items@) == bun_items(manifest@, tv.take(i as int)),
        decreases tables@.len() - i,
    {
        proof {
            assert(tv.take(i + 1).drop_last() =~= tv.take(i as int));
        }
        match &tables[i] {
            Some(m) => {
                table_items(manifest, m, &mut items);
            },
            None => {},
        }
        i = i + 1;
    }
    proof {
        assert(tv.take(tables@.len() as int) =~= tv);
    }
    items
}

} // verus!
