//! The Go adapter: `go.work` and the `require` directives of each `go.mod`.
use vstd::prelude::*;
use crate::adapters::{AdapterKind, suffixed};
use crate::config::LunaConfig;
use crate::diagnostics::{
    DoctorCheck, CheckView, InventoryItem, ItemView, check_views, item_views, item_v, ok_check, warn_check, ok,
    warn_bare, push_check, push_item, item,
};
use crate::text::{
    trim, starts_with, split_whitespace, lines, trim_chars, starts_with_str, chars_eq_str, lines_str,
    split_whitespace_exec, slice_chars, string_from, string_of,
};

verus! {

/// The Go backend.
pub struct GoBackend;

/// The checks `doctor` reports for Go, given whether the workspace file exists.
pub open spec fn go_doctor_spec(config: LunaConfig, workspace: bool) -> Seq<CheckView> {
    if workspace {
        seq![ok_check("go-workspace"@, config.adapters.go.workspace@ + " present"@)]
    } else {
        seq![warn_check("go-workspace"@, "go.work missing"@, None)]
    }
}

/// `s` with every leading repetition of `p` removed.
pub open spec fn strip_all_prefix(s: Seq<char>, p: Seq<char>) -> Seq<char>
    decreases s.len(),
{
    if p.len() > 0 && starts_with(s, p) {
        strip_all_prefix(s.skip(p.len() as int), p)
    } else {
        s
    }
}

/// One step of reading a `go.mod`: whether the reader is inside a
/// `require ( ... )` block, and the modules found so far.
pub open spec fn go_mod_step(state: (bool, Seq<ItemView>), line: Seq<char>, source: Seq<char>) -> (bool, Seq<ItemView>) {
    let t = trim(line);
    if starts_with(t, "require ("@) {
        (true, state.1)
    } else if state.0 && t == ")"@ {
        (false, state.1)
    } else if state.0 || starts_with(t, "require "@) {
        let parts = split_whitespace(strip_all_prefix(t, "require "@));
        if parts.len() >= 2 {
            (state.0, state.1.push(item_v("go"@, parts[0], parts[1], source, "go"@)))
        } else {
            state
        }
    } else {
        state
    }
}

/// The state after reading a list of lines.
pub open spec fn go_mod_state(lines: Seq<Seq<char>>, source: Seq<char>) -> (bool, Seq<ItemView>)
    decreases lines.len(),
{
    if lines.len() == 0 {
        (false, seq![])
    } else {
        go_mod_step(go_mod_state(lines.drop_last(), source), lines.last(), source)
    }
}

/// The modules required by a `go.mod` text read from `source`, in order.
pub open spec fn go_mod_items(source: Seq<char>, text: Seq<char>) -> Seq<ItemView> {
    go_mod_state(lines(text), source).1
}

/// The Go inventory of a list of (path, `go.mod` text) modules.
pub open spec fn go_modules_items(modules: Seq<(Seq<char>, Seq<char>)>) -> Seq<ItemView>
    decreases modules.len(),
{
    if modules.len() == 0 {
        seq![]
    } else {
        go_modules_items(modules.drop_last()) + go_mod_items(modules.last().0, modules.last().1)
    }
}

fn strip_all_prefix_exec(s: &[char], p: &str) -> (r: Vec<char>)
    requires
        p@.len() > 0,
    ensures
        r@ == strip_all_prefix(s@, p@),
{
    let n = crate::text::chars_of(p).len();
    let mut lo: usize = 0;
    assert(s@.skip(0) =~= s@);
    loop
        invariant
            n == p@.len(),
            n > 0,
            lo <= s@.len(),
            strip_all_prefix(s@, p@) == strip_all_prefix(s@.skip(lo as int), p@),
        decreases s@.len() - lo,
    {
        let rest = slice_chars(s, lo, s.len());
        assert(rest@ =~= s@.skip(lo as int));
        if !starts_with_str(rest.as_slice(), p) {
            return rest;
        }
        assert(s@.skip(lo as int).skip(n as int) =~= s@.skip(lo + n));
        lo = lo + n;
    }
}

/// Read the modules required by a `go.mod` text, naming `source` as their origin.
pub fn parse_go_mod(source: &str, text: &str) -> (r: Vec<InventoryItem>)
    ensures
        item_views(r@) == go_mod_items(source@, text@),
{
    let ls = lines_str(text);
    let ghost lv = ls@.map_values(|p: Vec<char>| p@);
    let mut in_require = false;
    let mut items: Vec<InventoryItem> = Vec::new();
    let mut i: usize = 0;
    proof {
        reveal_strlit("require ");
    }
    while i < ls.len()
        invariant
            lv == lines(text@),
            ls@.map_values(|p: Vec<char>| p@) == lv,
            i <= ls@.len(),
            "require "@.len() == 8,
            go_mod_state(lv.take(i as int), source@) == (in_require, item_views(items@)),
        decreases ls@.len() - i,
    {
        proof {
            assert(lv.take(i + 1).drop_last() =~= lv.take(i as int));
            assert(ls@[i as int]@ == lv[i as int]);
        }
        let t = trim_chars(ls[i].as_slice());
        if starts_with_str(t.as_slice(), "require (") {
            in_require = true;
        } else if in_require && chars_eq_str(t.as_slice(), ")") {
            in_require = false;
        } else if in_require || starts_with_str(t.as_slice(), "require ") {
            let stripped = strip_all_prefix_exec(t.as_slice(), "require ");
            let parts = split_whitespace_exec(stripped.as_slice());
            let ghost pv = parts@.map_values(|p: Vec<char>| p@);
            if parts.len() >= 2 {
                assert(parts@[0]@ == pv[0] && parts@[1]@ == pv[1]);
                let name = string_of(parts[0].as_slice());
                let version = string_of(parts[1].as_slice());
                let x = item("go", name.as_str(), version.as_str(), source, "go");
                push_item(&mut items, x);
            }
        }
        i = i + 1;
    }
    proof {
        assert(lv.take(ls@.len() as int) =~= lv);
    }
    items
}

impl GoBackend {
    /// This backend's adapter.
    pub fn kind(&self) -> (r: AdapterKind)
        ensures
            r == AdapterKind::Go,
    {
        AdapterKind::Go
    }

    /// The checks `doctor` reports, given whether the configured workspace file
    /// exists.
    pub fn doctor(&self, config: &LunaConfig, workspace: bool) -> (r: Vec<DoctorCheck>)
        ensures
            check_views(r@) == go_doctor_spec(*config, workspace),
    {
        let mut checks: Vec<DoctorCheck> = Vec::new();
        if workspace {
            push_check(&mut checks, ok("go-workspace", suffixed(config.adapters.go.workspace.as_str(), " present")));
        } else {
            push_check(&mut checks, warn_bare("go-workspace", string_from("go.work missing")));
        }
        assert(check_views(checks@) =~= go_doctor_spec(*config, workspace));
        checks
    }

    /// The Go inventory: nothing without a workspace file, else the modules
    /// required by each (path, `go.mod` text) module, in order.
    pub fn export_inventory(&self, workspace: bool, modules: &[(String, String)]) -> (r: Vec<InventoryItem>)
        ensures
            item_views(r@) == if workspace {
                go_modules_items(modules@.map_values(|m: (String, String)| (m.0@, m.1@)))
            } else {
                seq![]
            },
    {
        let mut items: Vec<InventoryItem> = Vec::new();
        if !workspace {
            assert(item_views(items@) =~= seq![]);
            return items;
        }
        let ghost mv = modules@.map_values(|m: (String, String)| (m.0@, m.1@));
        let mut i: usize = 0;
        while i < modules.len()
            invariant
                mv == modules@.map_values(|m: (String, String)| (m.0@, m.1@)),
                i <= modules@.len(),
                item_views(items@) == go_modules_items(mv.take(i as int)),
            decreases modules@.len() - i,
        {
            proof {
                assert(mv.take(i + 1).drop_last() =~= mv.take(i as int));
                assert(mv[i as int] == (modules@[i as int].0@, modules@[i as int].1@));
            }
            let found = parse_go_mod(modules[i].0.as_str(), modules[i].1.as_str());
            let ghost before = item_views(items@);
            let mut more = found;
            items.append(&mut more);
            proof {
                assert(item_views(items@) =~= before + item_views(found@));
            }
            i = i + 1;
        }
        proof {
            assert(mv.take(modules@.len() as int) =~= mv);
        }
        items
    }
}

} // verus!
