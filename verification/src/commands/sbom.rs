//! `luna sbom`: the dependency inventory as a bill of materials.
use vstd::prelude::*;
use crate::diagnostics::{InventoryItem, ItemView, item_views};
use crate::output::{Component, SbomReport, component_of, SCHEMA_VERSION};
use crate::text::{str_eq, string_from, push_str};

verus! {

/// The output format of `luna sbom`.
#[derive(Clone, Copy, PartialEq, Eq, Structural, Debug)]
pub enum SbomFormat {
    Json,
    CycloneDx,
}

/// The format a name selects: `cyclonedx`, or Luna's own JSON for anything else.
pub open spec fn parse_format_spec(s: Seq<char>) -> SbomFormat {
    if s == "cyclonedx"@ {
        SbomFormat::CycloneDx
    } else {
        SbomFormat::Json
    }
}

/// The name of a format in reports.
pub open spec fn format_label(f: SbomFormat) -> Seq<char> {
    match f {
        SbomFormat::Json => "luna"@,
        SbomFormat::CycloneDx => "cyclonedx"@,
    }
}

impl SbomFormat {
    /// The format named `s`.
    pub fn parse_format(s: &str) -> (r: Self)
        ensures
            r == parse_format_spec(s@),
    {
        if str_eq(s, "cyclonedx") {
            SbomFormat::CycloneDx
        } else {
            SbomFormat::Json
        }
    }

    /// The name of this format in reports.
    pub fn label(self) -> (r: &'static str)
        ensures
            r@ == format_label(self),
    {
        match self {
            SbomFormat::Json => "luna",
            SbomFormat::CycloneDx => "cyclonedx",
        }
    }
}

/// Reading a format's label selects that format again.
pub proof fn lemma_format_label_round_trip(f: SbomFormat)
    ensures
        parse_format_spec(format_label(f)) == f,
{
    reveal_strlit("luna");
    reveal_strlit("cyclonedx");
    assert("luna"@.len() != "cyclonedx"@.len());
}

/// The component of an inventory item.
pub open spec fn component_view(c: Component) -> ItemView {
    ItemView {
        adapter: c.adapter@,
        name: c.name@,
        version: c.version@,
        ecosystem: c.ecosystem@,
        source_path: crate::deps::model::opt_view(c.source_path),
    }
}

/// The components of a list of inventory items, one each, in order.
pub fn components_of(items: Vec<InventoryItem>) -> (r: Vec<Component>)
    ensures
        r@.map_values(|c: Component| component_view(c)) == item_views(items@),
{
    let ghost iv = item_views(items@);
    let mut items = items;
    let mut rev: Vec<Component> = Vec::new();
    let n = items.len();
    while items.len() > 0
        invariant
            iv.len() == n,
            items@.len() <= n,
            item_views(items@) == iv.take(items@.len() as int),
            rev@.len() == n - items@.len(),
            forall|k: int| 0 <= k < rev@.len() ==> component_view(#[trigger] rev@[k]) == iv[n - 1 - k],
        decreases items@.len(),
    {
        let ghost before = items@;
        let x = items.pop().unwrap();
        proof {
            assert(item_views(before)[before.len() - 1] == x@);
            assert(iv.take(before.len() as int)[before.len() - 1] == iv[before.len() - 1]);
            assert(item_views(items@) =~= iv.take(items@.len() as int));
        }
        rev.push(component_of(x));
    }
    let mut out: Vec<Component> = Vec::new();
    while rev.len() > 0
        invariant
            rev@.len() + out@.len() == n,
            iv.len() == n,
            forall|k: int| 0 <= k < rev@.len() ==> component_view(#[trigger] rev@[k]) == iv[n - 1 - k],
            forall|k: int| 0 <= k < out@.len() ==> component_view(#[trigger] out@[k]) == iv[k],
        decreases rev@.len(),
    {
        let ghost k0 = out@.len();
        let c = rev.pop().unwrap();
        assert(component_view(c) == iv[k0 as int]);
        out.push(c);
    }
    assert(out@.map_values(|c: Component| component_view(c)) =~= iv);
    out
}

/// The bill of materials for an inventory.
pub fn sbom_report(root: &str, format: SbomFormat, items: Vec<InventoryItem>) -> (r: SbomReport)
    ensures
        r.schema_version@ == SCHEMA_VERSION@,
        r.workspace_root@ == root@,
        r.format@ == format_label(format),
        r.components@.map_values(|c: Component| component_view(c)) == item_views(items@),
{
    SbomReport {
        schema_version: string_from(SCHEMA_VERSION),
        workspace_root: string_from(root),
        format: string_from(format.label()),
        components: components_of(items),
    }
}

/// The package URL of a component in a CycloneDX document: `pkg:<ecosystem>@<name>`.
pub fn purl(c: &Component) -> (r: String)
    ensures
        r@ == "pkg:"@ + c.ecosystem@ + "@"@ + c.name@,
{
    let mut r = string_from("pkg:");
    push_str(&mut r, c.ecosystem.as_str());
    push_str(&mut r, "@");
    push_str(&mut r, c.name.as_str());
    r
}

} // verus!
