//! Backend adapters: which package managers a workspace uses, what `doctor`
//! reports about each, and the dependency inventory read from their manifests.
use vstd::prelude::*;
use crate::text::{
    str_eq, string_from, string_of, push_str, trim, trim_char, starts_with, split_once, lines, trim_chars,
    trim_char_exec, starts_with_str, chars_eq_str, split_once_str, lines_str,
};

pub mod bun;
pub mod cargo;
pub mod go;
pub mod moon;
pub mod pixi;
pub mod proto;
pub mod uv;

verus! {

/// A backend adapter.
#[derive(Clone, Copy, PartialEq, Eq, Structural, Debug, Hash)]
pub enum AdapterKind {
    Pixi,
    Moon,
    Proto,
    Bun,
    Uv,
    Cargo,
    Go,
    Native,
}

/// The label of an adapter.
pub open spec fn kind_label(k: AdapterKind) -> Seq<char> {
    match k {
        AdapterKind::Pixi => "pixi"@,
        AdapterKind::Moon => "moon"@,
        AdapterKind::Proto => "proto"@,
        AdapterKind::Bun => "bun"@,
        AdapterKind::Uv => "uv"@,
        AdapterKind::Cargo => "cargo"@,
        AdapterKind::Go => "go"@,
        AdapterKind::Native => "native"@,
    }
}

/// The adapter a label names: `rust` is an alias of `cargo`, and anything
/// unknown is the native adapter.
pub open spec fn kind_of_label(label: Seq<char>) -> AdapterKind {
    if label == "pixi"@ {
        AdapterKind::Pixi
    } else if label == "moon"@ {
        AdapterKind::Moon
    } else if label == "proto"@ {
        AdapterKind::Proto
    } else if label == "bun"@ {
        AdapterKind::Bun
    } else if label == "uv"@ {
        AdapterKind::Uv
    } else if label == "cargo"@ || label == "rust"@ {
        AdapterKind::Cargo
    } else if label == "go"@ {
        AdapterKind::Go
    } else {
        AdapterKind::Native
    }
}

impl AdapterKind {
    /// The adapter named by `label`.
    pub fn from_label(label: &str) -> (r: Self)
        ensures
            r == kind_of_label(label@),
    {
        if str_eq(label, "pixi") {
            AdapterKind::Pixi
        } else if str_eq(label, "moon") {
            AdapterKind::Moon
        } else if str_eq(label, "proto") {
            AdapterKind::Proto
        } else if str_eq(label, "bun") {
            AdapterKind::Bun
        } else if str_eq(label, "uv") {
            AdapterKind::Uv
        } else if str_eq(label, "cargo") || str_eq(label, "rust") {
            AdapterKind::Cargo
        } else if str_eq(label, "go") {
            AdapterKind::Go
        } else {
            AdapterKind::Native
        }
    }

    /// The label of this adapter.
    pub fn label(self) -> (r: &'static str)
        ensures
            r@ == kind_label(self),
    {
        match self {
            AdapterKind::Pixi => "pixi",
            AdapterKind::Moon => "moon",
            AdapterKind::Proto => "proto",
            AdapterKind::Bun => "bun",
            AdapterKind::Uv => "uv",
            AdapterKind::Cargo => "cargo",
            AdapterKind::Go => "go",
            AdapterKind::Native => "native",
        }
    }
}

/// Reading an adapter's label gives the adapter back.
pub proof fn lemma_label_round_trip(k: AdapterKind)
    ensures
        kind_of_label(kind_label(k)) == k,
{
    reveal_strlit("pixi");
    reveal_strlit("moon");
    reveal_strlit("proto");
    reveal_strlit("bun");
    reveal_strlit("uv");
    reveal_strlit("cargo");
    reveal_strlit("rust");
    reveal_strlit("go");
    reveal_strlit("native");
    assert("pixi"@.len() == 4 && "pixi"@[0] == 'p');
    assert("moon"@.len() == 4 && "moon"@[0] == 'm');
    assert("proto"@.len() == 5 && "proto"@[0] == 'p');
    assert("bun"@.len() == 3 && "bun"@[0] == 'b');
    assert("uv"@.len() == 2 && "uv"@[0] == 'u');
    assert("cargo"@.len() == 5 && "cargo"@[0] == 'c');
    assert("rust"@.len() == 4 && "rust"@[0] == 'r');
    assert("go"@.len() == 2 && "go"@[0] == 'g');
    assert("native"@.len() == 6 && "native"@[0] == 'n');
}

/// The adapters that take part in lock and inventory operations, in order.
pub open spec fn inventory_kinds_spec() -> Seq<AdapterKind> {
    seq![
        AdapterKind::Pixi,
        AdapterKind::Proto,
        AdapterKind::Bun,
        AdapterKind::Uv,
        AdapterKind::Cargo,
        AdapterKind::Go,
        AdapterKind::Moon,
    ]
}

/// The adapters that take part in lock and inventory operations.
pub fn inventory_kinds() -> (r: [AdapterKind; 7])
    ensures
        r@ == inventory_kinds_spec(),
{
    let r = [
        AdapterKind::Pixi,
        AdapterKind::Proto,
        AdapterKind::Bun,
        AdapterKind::Uv,
        AdapterKind::Cargo,
        AdapterKind::Go,
        AdapterKind::Moon,
    ];
    assert(r@ =~= inventory_kinds_spec());
    r
}

/// Options of a sync.
#[derive(Clone, Copy, Debug)]
pub struct SyncOpts {
    pub locked: bool,
    pub quiet: bool,
}

/// Options of a lock.
#[derive(Clone, Copy, Debug)]
pub struct LockOpts {
    pub locked: bool,
    pub quiet: bool,
}

impl Default for LockOpts {
    fn default() -> (r: Self)
        ensures
            !r.locked && !r.quiet,
    {
        LockOpts { locked: false, quiet: false }
    }
}

/// What a lock reported.
pub struct LockOutcome {
    pub ok: bool,
    pub message: Option<String>,
}

/// What a sync reported.
pub struct SyncOutcome {
    pub exit_code: i32,
}

/// `s` followed by `suffix`.
pub fn suffixed(s: &str, suffix: &str) -> (r: String)
    ensures
        r@ == s@ + suffix@,
{
    let mut r = string_from(s);
    push_str(&mut r, suffix);
    r
}


/// Whether a TOML section header opens the `[dependencies]` table (with
/// `nested`, also its `[dependencies.*]` sub-tables).
pub open spec fn opens_dependencies(header: Seq<char>, nested: bool) -> bool {
    header == "[dependencies]"@ || (nested && starts_with(header, "[dependencies."@))
}

/// One step of reading `name = version` lines: whether the reader is inside the
/// dependency table, and the entries found so far.
pub open spec fn dependency_step(state: (bool, Seq<(Seq<char>, Seq<char>)>), line: Seq<char>, nested: bool) -> (
    bool,
    Seq<(Seq<char>, Seq<char>)>,
) {
    let t = trim(line);
    if starts_with(t, "["@) {
        (opens_dependencies(t, nested), state.1)
    } else if !state.0 || t.len() == 0 || starts_with(t, "#"@) {
        state
    } else {
        match split_once(t, "="@) {
            Some((name, rest)) => (state.0, state.1.push((trim(name), trim_char(trim(rest), '"')))),
            None => state,
        }
    }
}

/// The state after reading a list of lines.
pub open spec fn dependency_state(lines: Seq<Seq<char>>, nested: bool) -> (bool, Seq<(Seq<char>, Seq<char>)>)
    decreases lines.len(),
{
    if lines.len() == 0 {
        (false, seq![])
    } else {
        dependency_step(dependency_state(lines.drop_last(), nested), lines.last(), nested)
    }
}

/// The `name = version` entries of the `[dependencies]` table of a TOML text,
/// read line by line, with surrounding quotes taken off the version.
pub open spec fn dependency_entries_spec(text: Seq<char>, nested: bool) -> Seq<(Seq<char>, Seq<char>)> {
    dependency_state(lines(text), nested).1
}

/// The model of a list of string pairs.
pub open spec fn pairs_view(v: Seq<(String, String)>) -> Seq<(Seq<char>, Seq<char>)> {
    v.map_values(|p: (String, String)| (p.0@, p.1@))
}

/// Read the `name = version` entries of the `[dependencies]` table of `text`.
pub fn dependency_entries(text: &str, nested: bool) -> (r: Vec<(String, String)>)
    ensures
        pairs_view(r@) == dependency_entries_spec(text@, nested),
{
    let ls = lines_str(text);
    let ghost lv = ls@.map_values(|p: Vec<char>| p@);
    let mut in_deps = false;
    let mut out: Vec<(String, String)> = Vec::new();
    let mut i: usize = 0;
    while i < ls.len()
        invariant
            lv == lines(text@),
            ls@.map_values(|p: Vec<char>| p@) == lv,
            i <= ls@.len(),
            dependency_state(lv.take(i as int), nested) == (in_deps, pairs_view(out@)),
        decreases ls@.len() - i,
    {
        proof {
            assert(lv.take(i + 1).drop_last() =~= lv.take(i as int));
            assert(ls@[i as int]@ == lv[i as int]);
        }
        let t = trim_chars(ls[i].as_slice());
        if starts_with_str(t.as_slice(), "[") {
            in_deps = chars_eq_str(t.as_slice(), "[dependencies]") || (nested && starts_with_str(t.as_slice(), "[dependencies."));
        } else if !in_deps || t.len() == 0 || starts_with_str(t.as_slice(), "#") {
        } else {
            match split_once_str(t.as_slice(), "=") {
                Some((name, rest)) => {
                    let n = trim_chars(name.as_slice());
                    let v0 = trim_chars(rest.as_slice());
                    let v = trim_char_exec(v0.as_slice(), '"');
                    let ghost before = pairs_view(out@);
                    out.push((string_of(n.as_slice()), string_of(v.as_slice())));
                    proof {
                        assert(pairs_view(out@) =~= before.push((n@, v@)));
                    }
                },
                None => {},
            }
        }
        i = i + 1;
    }
    proof {
        assert(lv.take(ls@.len() as int) =~= lv);
    }
    out
}

} // verus!
