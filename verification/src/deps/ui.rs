//! The text of the dependency tables and notices: trimmed names, workspace and
//! release-age cells, section headers, and the tone of each value.
use vstd::prelude::*;
use crate::deps::model::{DependencyRow, ToolchainKind, ToolchainSnapshot, ToolchainState, has_updates_spec, order_index};
use crate::order::{is_stable_sort, keys_view, stable_sort_indices};
use crate::num::decimal;
use crate::text::{views, join, join_strings, string_from, push_str, trim, lines, trim_chars, lines_str, chars_of, string_of, push_char};

verus! {

/// The width budget of the dependency column, in characters.
pub const DEP_BUDGET: usize = 24;

/// A dependency name trimmed to the column budget: longer names keep their
/// first `DEP_BUDGET - 1` characters and end with `…`.
pub open spec fn trim_dependency_spec(name: Seq<char>) -> Seq<char> {
    if name.len() <= DEP_BUDGET {
        name
    } else {
        name.take(DEP_BUDGET - 1).push('…')
    }
}

/// Trim a dependency name to the column budget with a trailing ellipsis.
pub fn trim_dependency(name: &str) -> (r: String)
    ensures
        r@ == trim_dependency_spec(name@),
        r@.len() <= DEP_BUDGET || r@ == name@,
{
    let cs = chars_of(name);
    if cs.len() <= DEP_BUDGET {
        return string_from(name);
    }
    let keep = crate::text::slice_chars(cs.as_slice(), 0, DEP_BUDGET - 1);
    let mut r = string_of(keep.as_slice());
    push_char(&mut r, '…');
    assert(keep@ =~= name@.take(DEP_BUDGET - 1));
    r
}

/// The Workspace cell: the row's workspaces joined with `, `, or `—`.
pub fn workspaces_text(row: &DependencyRow) -> (r: String)
    ensures
        r@ == if row.workspaces@.len() == 0 {
            "—"@
        } else {
            join(views(row.workspaces@), ", "@)
        },
{
    if row.workspaces.len() == 0 {
        string_from("—")
    } else {
        join_strings(&row.workspaces, ", ")
    }
}

/// The Release Age cell: the age of the newest version (under `label`) and of
/// the latest, joined with ` · `; `—` when neither is known.
pub open spec fn release_age_cell_spec(newest_age: Option<u32>, latest_age: Option<u32>, label: Seq<char>) -> Seq<char> {
    let parts = (match newest_age {
        Some(a) => seq![label + " "@ + decimal(a as nat) + "d"@],
        None => seq![],
    }) + match latest_age {
        Some(a) => seq!["latest "@ + decimal(a as nat) + "d"@],
        None => seq![],
    };
    if parts.len() == 0 {
        "—"@
    } else {
        join(parts, " · "@)
    }
}

/// The Release Age cell of a row.
pub fn release_age_cell(row: &DependencyRow, newest_label: &str) -> (r: String)
    ensures
        r@ == release_age_cell_spec(row.newest_release_age_days, row.latest_release_age_days, newest_label@),
{
    let mut parts: Vec<String> = Vec::new();
    match row.newest_release_age_days {
        Some(a) => {
            let mut p = string_from(newest_label);
            push_str(&mut p, " ");
            crate::num::push_decimal(&mut p, a as u64);
            push_str(&mut p, "d");
            parts.push(p);
        },
        None => {},
    }
    let ghost first = views(parts@);
    match row.latest_release_age_days {
        Some(a) => {
            let mut p = string_from("latest ");
            crate::num::push_decimal(&mut p, a as u64);
            push_str(&mut p, "d");
            parts.push(p);
            assert(views(parts@) =~= first.push(p@));
        },
        None => {},
    }
    let ghost expected = (match row.newest_release_age_days {
        Some(a) => seq![newest_label@ + " "@ + decimal(a as nat) + "d"@],
        None => seq![],
    }) + match row.latest_release_age_days {
        Some(a) => seq!["latest "@ + decimal(a as nat) + "d"@],
        None => seq![],
    };
    assert(views(parts@) =~= expected);
    if parts.len() == 0 {
        string_from("—")
    } else {
        join_strings(&parts, " · ")
    }
}

/// The note shown beside a finished toolchain in the status panel.
pub open spec fn state_note_spec(state: ToolchainState) -> Seq<char> {
    match state {
        ToolchainState::UpToDate => "up to date"@,
        ToolchainState::Outdated => "updates found"@,
        ToolchainState::Blocked => "blocked"@,
        ToolchainState::Failed => "check failed"@,
        ToolchainState::Skipped => "skipped"@,
        _ => ""@,
    }
}

/// The note shown beside a toolchain in the status panel.
pub fn state_note(state: ToolchainState) -> (r: String)
    ensures
        r@ == state_note_spec(state),
{
    match state {
        ToolchainState::UpToDate => string_from("up to date"),
        ToolchainState::Outdated => string_from("updates found"),
        ToolchainState::Blocked => string_from("blocked"),
        ToolchainState::Failed => string_from("check failed"),
        ToolchainState::Skipped => string_from("skipped"),
        _ => string_from(""),
    }
}

/// `str::to_uppercase` of a text.
pub uninterp spec fn uppercase_of(s: Seq<char>) -> Seq<char>;

/// `str::to_uppercase` (Unicode uppercase mapping); the result is named, not stated.
#[verifier::external_body]
fn to_uppercase(s: &str) -> (r: String)
    ensures
        r@ == uppercase_of(s@),
{
    s.to_uppercase()
}

/// The header line of a section: `--- TITLE ---`.
pub fn section_header_line(title: &str) -> (r: String)
    ensures
        r@ == "--- "@ + uppercase_of(title@) + " ---"@,
{
    let mut r = string_from("--- ");
    let up = to_uppercase(title);
    push_str(&mut r, up.as_str());
    push_str(&mut r, " ---");
    r
}

/// The non-empty trimmed lines among a list of lines.
pub open spec fn nonempty_trimmed(lines: Seq<Seq<char>>) -> Seq<Seq<char>>
    decreases lines.len(),
{
    if lines.len() == 0 {
        seq![]
    } else {
        nonempty_trimmed(lines.drop_last()) + if trim(lines.last()).len() > 0 {
            seq![trim(lines.last())]
        } else {
            seq![]
        }
    }
}

/// The body of a failure notice: at most the first twelve non-empty lines of
/// the text, each trimmed.
pub open spec fn trim_failure_body_spec(body: Seq<char>) -> Seq<char> {
    let ls = nonempty_trimmed(lines(trim(body)));
    join(if ls.len() <= 12 { ls } else { ls.take(12) }, "\n"@)
}

/// The body of a failure notice.
pub fn trim_failure_body(body: &str) -> (r: String)
    ensures
        r@ == trim_failure_body_spec(body@),
{
    let t = string_of(crate::text::trim_str(body).as_slice());
    let ls = lines_str(t.as_str());
    let ghost lv = ls@.map_values(|p: Vec<char>| p@);
    let mut kept: Vec<String> = Vec::new();
    let mut i: usize = 0;
    while i < ls.len()
        invariant
            lv == lines(trim(body@)),
            ls@.map_values(|p: Vec<char>| p@) == lv,
            i <= ls@.len(),
            views(kept@) == nonempty_trimmed(lv.take(i as int)),
        decreases ls@.len() - i,
    {
        proof {
            assert(lv.take(i + 1).drop_last() =~= lv.take(i as int));
            assert(ls@[i as int]@ == lv[i as int]);
        }
        let ghost before = views(kept@);
        let line = trim_chars(ls[i].as_slice());
        if line.len() > 0 {
            kept.push(string_of(line.as_slice()));
            assert(views(kept@) =~= before.push(line@));
        }
        proof {
            assert(views(kept@) =~= nonempty_trimmed(lv.take(i + 1)));
        }
        i = i + 1;
    }
    proof {
        assert(lv.take(ls@.len() as int) =~= lv);
    }
    if kept.len() > 12 {
        let ghost all = views(kept@);
        kept.truncate(12);
        assert(views(kept@) =~= all.take(12));
    }
    join_strings(&kept, "\n")
}

/// How a value is emphasized in the tables.
#[derive(Clone, Copy, PartialEq, Eq, Structural, Debug)]
pub enum Tone {
    Success,
    Failure,
    Caution,
    Muted,
}

/// The tone of the Newest cell: old enough for the release-age policy, too
/// young, or of unknown age.
pub fn newest_tone(age_days: Option<u32>, min_release_age_days: u64) -> (r: Tone)
    ensures
        r == match age_days {
            Some(age) => if age >= min_release_age_days {
                Tone::Success
            } else {
                Tone::Failure
            },
            None => Tone::Muted,
        },
{
    match age_days {
        Some(age) => if age as u64 >= min_release_age_days {
            Tone::Success
        } else {
            Tone::Failure
        },
        None => Tone::Muted,
    }
}

/// The tone of the Latest cell: a caution when it is one major version ahead.
pub fn latest_tone(one_major_ahead: bool) -> (r: Tone)
    ensures
        r == (if one_major_ahead {
            Tone::Caution
        } else {
            Tone::Muted
        }),
{
    if one_major_ahead {
        Tone::Caution
    } else {
        Tone::Muted
    }
}

/// The tone of a summary count: highlighted when non-zero.
pub fn summary_count_tone(count: usize, highlight: Tone) -> (r: Tone)
    ensures
        r == (if count > 0 {
            highlight
        } else {
            Tone::Muted
        }),
{
    if count > 0 {
        highlight
    } else {
        Tone::Muted
    }
}


/// The sort key of a table row: its workspaces joined with `,`, then its name.
pub open spec fn row_key(row: DependencyRow) -> (Seq<char>, Seq<char>) {
    (join(views(row.workspaces@), ","@), row.dependency@)
}

/// The sort keys of a list of rows.
pub open spec fn row_keys(rows: Seq<DependencyRow>) -> Seq<(Seq<char>, Seq<char>)> {
    rows.map_values(|r: DependencyRow| row_key(r))
}

/// The positions of a toolchain's rows in table order: sorted by workspace,
/// then by name, ties keeping their order.
pub fn sorted_rows(rows: &[DependencyRow]) -> (r: Vec<usize>)
    ensures
        is_stable_sort(row_keys(rows@), r@),
{
    let mut keys: Vec<(Vec<char>, Vec<char>)> = Vec::new();
    let mut i: usize = 0;
    while i < rows.len()
        invariant
            i <= rows@.len(),
            keys_view(keys@) == row_keys(rows@.take(i as int)),
        decreases rows@.len() - i,
    {
        let w = join_strings(&rows[i].workspaces, ",");
        let k = (chars_of(w.as_str()), chars_of(rows[i].dependency.as_str()));
        let ghost before = keys_view(keys@);
        keys.push(k);
        proof {
            assert(keys_view(keys@) =~= before.push((k.0@, k.1@)));
            assert(row_keys(rows@.take(i + 1)) =~= row_keys(rows@.take(i as int)).push(row_key(rows@[i as int])));
        }
        i = i + 1;
    }
    proof {
        assert(rows@.take(rows@.len() as int) =~= rows@);
    }
    stable_sort_indices(&keys)
}

/// The toolchains of the outdated table, one group per toolchain with updates.
pub struct RowGroup {
    pub kind: ToolchainKind,
    /// The snapshot of that toolchain: the first one of its kind.
    pub snapshot: usize,
    /// The positions of its rows, in table order.
    pub rows: Vec<usize>,
}

/// `s` is the first snapshot of kind `k`.
pub open spec fn first_of_kind(ss: Seq<ToolchainSnapshot>, k: ToolchainKind, s: int) -> bool {
    0 <= s < ss.len() && ss[s].kind == k && forall|j: int| 0 <= j < s ==> (#[trigger] ss[j]).kind != k
}

/// What a group of the outdated table shows.
pub open spec fn valid_group(ss: Seq<ToolchainSnapshot>, g: RowGroup) -> bool {
    &&& first_of_kind(ss, g.kind, g.snapshot as int)
    &&& has_updates_spec(ss[g.snapshot as int])
    &&& is_stable_sort(row_keys(ss[g.snapshot as int].rows@), g.rows@)
}

fn first_snapshot(ss: &[ToolchainSnapshot], k: ToolchainKind) -> (r: Option<usize>)
    ensures
        match r {
            Some(s) => first_of_kind(ss@, k, s as int),
            None => forall|j: int| 0 <= j < ss@.len() ==> (#[trigger] ss@[j]).kind != k,
        },
{
    let mut i: usize = 0;
    while i < ss.len()
        invariant
            i <= ss@.len(),
            forall|j: int| 0 <= j < i ==> (#[trigger] ss@[j]).kind != k,
        decreases ss@.len() - i,
    {
        if ss[i].kind == k {
            return Some(i);
        }
        i = i + 1;
    }
    None
}

/// The groups of the outdated table: in report order, for each toolchain whose
/// first snapshot has updates, its rows sorted by workspace and name.
pub fn outdated_groups(ss: &[ToolchainSnapshot]) -> (r: Vec<RowGroup>)
    ensures
        forall|i: int| 0 <= i < r@.len() ==> valid_group(ss@, #[trigger] r@[i]),
        forall|i: int, j: int| 0 <= i < j < r@.len() ==> order_index(#[trigger] r@[i].kind) < order_index(#[trigger] r@[j].kind),
        forall|k: ToolchainKind, s: int|
            #[trigger] first_of_kind(ss@, k, s) && has_updates_spec(ss@[s]) ==> exists|i: int| 0 <= i < r@.len() && (#[trigger] r@[i]).kind == k,
{
    let order = ToolchainKind::order();
    let mut groups: Vec<RowGroup> = Vec::new();
    let mut t: usize = 0;
    while t < 5
        invariant
            order@ == crate::deps::model::toolchain_order(),
            t <= 5,
            forall|i: int| 0 <= i < groups@.len() ==> valid_group(ss@, #[trigger] groups@[i]),
            forall|i: int| 0 <= i < groups@.len() ==> order_index(#[trigger] groups@[i].kind) < t,
            forall|i: int, j: int| 0 <= i < j < groups@.len() ==> order_index(#[trigger] groups@[i].kind) < order_index(#[trigger] groups@[j].kind),
            forall|k: ToolchainKind, s: int|
                order_index(k) < t && #[trigger] first_of_kind(ss@, k, s) && has_updates_spec(ss@[s]) ==> exists|i: int| 0 <= i < groups@.len() && (#[trigger] groups@[i]).kind == k,
        decreases 5 - t,
    {
        let k = order[t];
        assert(order_index(k) == t);
        match first_snapshot(ss, k) {
            Some(s) => {
                if ss[s].has_updates() {
                    let rows = sorted_rows(ss[s].rows.as_slice());
                    let g = RowGroup { kind: k, snapshot: s, rows };
                    let ghost before = groups@;
                    groups.push(g);
                    proof {
                        assert(groups@[groups@.len() - 1] == g);
                        assert forall|i: int| 0 <= i < groups@.len() implies valid_group(ss@, #[trigger] groups@[i]) by {
                            if i < before.len() {
                                assert(groups@[i] == before[i]);
                            }
                        }
                        assert forall|kk: ToolchainKind, ss2: int|
                            order_index(kk) < t + 1 && #[trigger] first_of_kind(ss@, kk, ss2) && has_updates_spec(ss@[ss2]) implies exists|i: int| 0 <= i < groups@.len() && (#[trigger] groups@[i]).kind == kk by {
                            if order_index(kk) < t {
                                let i0 = choose|i: int| 0 <= i < before.len() && (#[trigger] before[i]).kind == kk;
                                assert(groups@[i0] == before[i0]);
                            } else {
                                assert(kk == k);
                                assert(groups@[groups@.len() - 1].kind == kk);
                            }
                        }
                    }
                } else {
                    proof {
                        assert forall|kk: ToolchainKind, ss2: int|
                            order_index(kk) < t + 1 && #[trigger] first_of_kind(ss@, kk, ss2) && has_updates_spec(ss@[ss2]) implies exists|i: int| 0 <= i < groups@.len() && (#[trigger] groups@[i]).kind == kk by {
                            if order_index(kk) == t {
                                assert(kk == k);
                                assert(ss2 == s as int) by {
                                    if ss2 < s as int {
                                        assert(ss@[ss2].kind != k);
                                    } else if ss2 > s as int {
                                        assert(ss@[s as int].kind != kk);
                                    }
                                }
                            }
                        }
                    }
                }
            },
            None => {
                proof {
                    assert forall|kk: ToolchainKind, ss2: int|
                        order_index(kk) < t + 1 && #[trigger] first_of_kind(ss@, kk, ss2) && has_updates_spec(ss@[ss2]) implies exists|i: int| 0 <= i < groups@.len() && (#[trigger] groups@[i]).kind == kk by {
                        if order_index(kk) == t {
                            assert(kk == k);
                            assert(ss@[ss2].kind != k);
                        }
                    }
                }
            },
        }
        t = t + 1;
    }
    groups
}

/// The opening sentence of the Release Age section, for a cooldown of `days`.
pub fn release_age_intro(days: u64) -> (r: String)
    ensures
        r@ == "Luna waits "@ + decimal(days as nat)
            + " days after a package is published before installing it. `LUNA_MIN_RELEASE_AGE`, enforced via `bunfig.toml`, `.npmrc`, and `uv --exclude-newer`. This reduces risk from freshly published malicious releases."@,
{
    let mut r = string_from("Luna waits ");
    crate::num::push_decimal(&mut r, days);
    push_str(
        &mut r,
        " days after a package is published before installing it. `LUNA_MIN_RELEASE_AGE`, enforced via `bunfig.toml`, `.npmrc`, and `uv --exclude-newer`. This reduces risk from freshly published malicious releases.",
    );
    r
}

} // verus!
