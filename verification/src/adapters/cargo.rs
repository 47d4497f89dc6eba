//! The Cargo adapter: `Cargo.toml` and `Cargo.lock`.
use vstd::prelude::*;
use crate::adapters::{AdapterKind, dependency_entries, dependency_entries_spec, pairs_view};
use crate::config::LunaConfig;
use crate::diagnostics::{
    DoctorCheck, CheckView, InventoryItem, ItemView, check_views, item_views, item_v, ok_check, ok, push_check,
    push_item, item,
};
use crate::text::{
    trim, trim_char, starts_with, lines, trim_chars, trim_char_exec, starts_with_str, chars_eq_str, lines_str,
    slice_chars, string_from,
};

verus! {

/// The Cargo backend.
pub struct CargoBackend;

/// The checks `doctor` reports for Cargo, given which of its files exist.
pub open spec fn cargo_doctor_spec(manifest: bool, lockfile: bool) -> Seq<CheckView> {
    (if manifest {
        seq![ok_check("cargo-manifest"@, "Cargo.toml present"@)]
    } else {
        seq![]
    }) + (if lockfile {
        seq![ok_check("cargo-lockfile"@, "Cargo.lock present"@)]
    } else {
        seq![]
    })
}

/// A Cargo package read from `source`.
pub open spec fn cargo_item(name: Seq<char>, version: Seq<char>, source: Seq<char>) -> ItemView {
    item_v("cargo"@, name, version, source, "cargo"@)
}

/// The package finished so far, if both its name and version were seen.
pub open spec fn lock_flush(name: Option<Seq<char>>, version: Option<Seq<char>>, source: Seq<char>) -> Seq<ItemView> {
    match (name, version) {
        (Some(n), Some(v)) => seq![cargo_item(n, v, source)],
        _ => seq![],
    }
}

/// One step of reading `Cargo.lock`: a `[[package]]` header finishes the current
/// package; `name = ` and `version = ` lines set its fields.
pub open spec fn lock_step(
    state: (Option<Seq<char>>, Option<Seq<char>>, Seq<ItemView>),
    line: Seq<char>,
    source: Seq<char>,
) -> (Option<Seq<char>>, Option<Seq<char>>, Seq<ItemView>) {
    let t = trim(line);
    if t == "[[package]]"@ {
        (None, None, state.2 + lock_flush(state.0, state.1, source))
    } else {
        let name = if starts_with(t, "name = "@) {
            Some(trim_char(t.skip(7), '"'))
        } else {
            state.0
        };
        let version = if starts_with(t, "version = "@) {
            Some(trim_char(t.skip(10), '"'))
        } else {
            state.1
        };
        (name, version, state.2)
    }
}

/// The state after reading a list of lines.
pub open spec fn lock_state(lines: Seq<Seq<char>>, source: Seq<char>) -> (
    Option<Seq<char>>,
    Option<Seq<char>>,
    Seq<ItemView>,
)
    decreases lines.len(),
{
    if lines.len() == 0 {
        (None, None, seq![])
    } else {
        lock_step(lock_state(lines.drop_last(), source), lines.last(), source)
    }
}

/// The packages of a `Cargo.lock` text read from `source`, in order.
pub open spec fn cargo_lock_items(source: Seq<char>, text: Seq<char>) -> Seq<ItemView> {
    let st = lock_state(lines(text), source);
    st.2 + lock_flush(st.0, st.1, source)
}

/// The packages listed in the `[dependencies]` table of a `Cargo.toml` text.
pub open spec fn cargo_manifest_items(source: Seq<char>, text: Seq<char>) -> Seq<ItemView> {
    dependency_entries_spec(text, false).map_values(|e: (Seq<char>, Seq<char>)| cargo_item(e.0, e.1, source))
}

/// The Cargo inventory: nothing without a manifest; the lockfile's packages when
/// there is one, else the manifest's `[dependencies]`.
pub open spec fn cargo_inventory_spec(config: LunaConfig, manifest: Option<Seq<char>>, lock: Option<Seq<char>>) -> Seq<
    ItemView,
> {
    match manifest {
        None => seq![],
        Some(m) => match lock {
            Some(l) => cargo_lock_items(config.adapters.cargo.lockfile@, l),
            None => cargo_manifest_items(config.adapters.cargo.manifest@, m),
        },
    }
}

fn field_value(t: &[char], prefix_len: usize) -> (r: String)
    requires
        prefix_len <= t@.len(),
    ensures
        r@ == trim_char(t@.skip(prefix_len as int), '"'),
{
    let rest = slice_chars(t, prefix_len, t.len());
    assert(rest@ =~= t@.skip(prefix_len as int));
    let v = trim_char_exec(rest.as_slice(), '"');
    crate::text::string_of(v.as_slice())
}

fn flush(name: &Option<String>, version: &Option<String>, source: &str, items: &mut Vec<InventoryItem>)
    ensures
        item_views(final(items)@) == item_views(old(items)@) + lock_flush(
            crate::deps::model::opt_view(*name),
            crate::deps::model::opt_view(*version),
            source@,
        ),
{
    match (name, version) {
        (Some(n), Some(v)) => {
            let x = item("cargo", n.as_str(), v.as_str(), source, "cargo");
            push_item(items, x);
            assert(item_views(items@) =~= item_views(old(items)@) + lock_flush(
                crate::deps::model::opt_view(*name),
                crate::deps::model::opt_view(*version),
                source@,
            ));
        },
        _ => {
            assert(item_views(items@) =~= item_views(old(items)@) + lock_flush(
                crate::deps::model::opt_view(*name),
                crate::deps::model::opt_view(*version),
                source@,
            ));
        },
    }
}

/// Read the packages of a `Cargo.lock` text, naming `source` as their origin.
pub fn parse_cargo_lock(source: &str, text: &str) -> (r: Vec<InventoryItem>)
    ensures
        item_views(r@) == cargo_lock_items(source@, text@),
{
    let ls = lines_str(text);
    let ghost lv = ls@.map_values(|p: Vec<char>| p@);
    let mut name: Option<String> = None;
    let mut version: Option<String> = None;
    let mut items: Vec<InventoryItem> = Vec::new();
    let mut i: usize = 0;
    while i < ls.len()
        invariant
            lv == lines(text@),
            ls@.map_values(|p: Vec<char>| p@) == lv,
            i <= ls@.len(),
            lock_state(lv.take(i as int), source@) == (
                crate::deps::model::opt_view(name),
                crate::deps::model::opt_view(version),
                item_views(items@),
            ),
        decreases ls@.len() - i,
    {
        proof {
            assert(lv.take(i + 1).drop_last() =~= lv.take(i as int));
            assert(ls@[i as int]@ == lv[i as int]);
        }
        let t = trim_chars(ls[i].as_slice());
        if chars_eq_str(t.as_slice(), "[[package]]") {
            flush(&name, &version, source, &mut items);
            name = None;
            version = None;
        } else {
            if starts_with_str(t.as_slice(), "name = ") {
                proof {
                    reveal_strlit("name = ");
                }
                name = Some(field_value(t.as_slice(), 7));
            }
            if starts_with_str(t.as_slice(), "version = ") {
                proof {
                    reveal_strlit("version = ");
                }
                version = Some(field_value(t.as_slice(), 10));
            }
        }
        i = i + 1;
    }
    proof {
        assert(lv.take(ls@.len() as int) =~= lv);
    }
    flush(&name, &version, source, &mut items);
    items
}

impl CargoBackend {
    /// This backend's adapter.
    pub fn kind(&self) -> (r: AdapterKind)
        ensures
            r == AdapterKind::Cargo,
    {
        AdapterKind::Cargo
    }

    /// The checks `doctor` reports, given whether the configured manifest and
    /// lockfile exist.
    pub fn doctor(&self, manifest: bool, lockfile: bool) -> (r: Vec<DoctorCheck>)
        ensures
            check_views(r@) == cargo_doctor_spec(manifest, lockfile),
    {
        let mut checks: Vec<DoctorCheck> = Vec::new();
        if manifest {
            push_check(&mut checks, ok("cargo-manifest", string_from("Cargo.toml present")));
        }
        if lockfile {
            push_check(&mut checks, ok("cargo-lockfile", string_from("Cargo.lock present")));
        }
        assert(check_views(checks@) =~= cargo_doctor_spec(manifest, lockfile));
        checks
    }

    /// The Cargo inventory, given the texts of the manifest and of the lockfile
    /// (`None` where the file does not exist).
    pub fn export_inventory(&self, config: &LunaConfig, manifest: Option<&str>, lock: Option<&str>) -> (r: Vec<
        InventoryItem,
    >)
        ensures
            item_views(r@) == cargo_inventory_spec(
                *config,
                match manifest {
                    Some(m) => Some(m@),
                    None => None,
                },
                match lock {
                    Some(l) => Some(l@),
                    None => None,
                },
            ),
    {
        match manifest {
            None => {
                let r: Vec<InventoryItem> = Vec::new();
                assert(item_views(r@) =~= seq![]);
                r
            },
            Some(m) => match lock {
                Some(l) => parse_cargo_lock(config.adapters.cargo.lockfile.as_str(), l),
                None => {
                    let entries = dependency_entries(m, false);
                    let ghost ev = pairs_view(entries@);
                    let src = config.adapters.cargo.manifest.as_str();
                    let mut items: Vec<InventoryItem> = Vec::new();
                    let mut i: usize = 0;
                    while i < entries.len()
                        invariant
                            ev == pairs_view(entries@),
                            i <= entries@.len(),
                            item_views(items@) == ev.take(i as int).map_values(
                                |e: (Seq<char>, Seq<char>)| cargo_item(e.0, e.1, src@),
                            ),
                        decreases entries@.len() - i,
                    {
                        let x = item("cargo", entries[i].0.as_str(), entries[i].1.as_str(), src, "cargo");
                        push_item(&mut items, x);
                        proof {
                            assert(ev[i as int] == (entries@[i as int].0@, entries@[i as int].1@));
                            assert(item_views(items@) =~= ev.take(i + 1).map_values(
                                |e: (Seq<char>, Seq<char>)| cargo_item(e.0, e.1, src@),
                            ));
                        }
                        i = i + 1;
                    }
                    proof {
                        assert(ev.take(entries@.len() as int) =~= ev);
                    }
                    items
                },
            },
        }
    }
}

} // verus!
