//! Doctor checks and dependency inventory items.
use vstd::prelude::*;
use crate::deps::model::opt_view;
use crate::text::string_from;

verus! {

/// Outcome of one doctor check.
#[derive(Clone, Copy, PartialEq, Eq, Structural, Debug)]
pub enum DoctorStatus {
    Pass,
    Warn,
    Fail,
}

/// One doctor check.
pub struct DoctorCheck {
    pub id: String,
    pub label: String,
    pub status: DoctorStatus,
    pub detail: Option<String>,
}

/// The model of a doctor check.
pub struct CheckView {
    pub id: Seq<char>,
    pub label: Seq<char>,
    pub status: DoctorStatus,
    pub detail: Option<Seq<char>>,
}

impl View for DoctorCheck {
    type V = CheckView;

    open spec fn view(&self) -> CheckView {
        CheckView { id: self.id@, label: self.label@, status: self.status, detail: opt_view(self.detail) }
    }
}

/// The views of a list of checks.
pub open spec fn check_views(v: Seq<DoctorCheck>) -> Seq<CheckView> {
    v.map_values(|c: DoctorCheck| c@)
}

/// A passing check.
pub open spec fn ok_check(id: Seq<char>, label: Seq<char>) -> CheckView {
    CheckView { id, label, status: DoctorStatus::Pass, detail: None }
}

/// A warning with an optional detail.
pub open spec fn warn_check(id: Seq<char>, label: Seq<char>, detail: Option<Seq<char>>) -> CheckView {
    CheckView { id, label, status: DoctorStatus::Warn, detail }
}

/// A failing check.
pub open spec fn fail_check(id: Seq<char>, label: Seq<char>) -> CheckView {
    CheckView { id, label, status: DoctorStatus::Fail, detail: None }
}

/// A passing check.
pub fn ok(id: &str, label: String) -> (r: DoctorCheck)
    ensures
        r@ == ok_check(id@, label@),
{
    DoctorCheck { id: string_from(id), label, status: DoctorStatus::Pass, detail: None }
}

/// A warning with a detail.
pub fn warn(id: &str, label: String, detail: String) -> (r: DoctorCheck)
    ensures
        r@ == warn_check(id@, label@, Some(detail@)),
{
    DoctorCheck { id: string_from(id), label, status: DoctorStatus::Warn, detail: Some(detail) }
}

/// A warning without a detail.
pub fn warn_bare(id: &str, label: String) -> (r: DoctorCheck)
    ensures
        r@ == warn_check(id@, label@, None),
{
    DoctorCheck { id: string_from(id), label, status: DoctorStatus::Warn, detail: None }
}

/// A failing check.
pub fn fail(id: &str, label: String) -> (r: DoctorCheck)
    ensures
        r@ == fail_check(id@, label@),
{
    DoctorCheck { id: string_from(id), label, status: DoctorStatus::Fail, detail: None }
}

/// One dependency found in a manifest or lockfile.
pub struct InventoryItem {
    /// The adapter that reported it.
    pub adapter: String,
    pub name: String,
    pub version: String,
    /// Package ecosystem (npm, cargo, pypi, go, conda, proto).
    pub ecosystem: String,
    /// The file it was read from, relative to the workspace root.
    pub source_path: Option<String>,
}

/// The model of an inventory item.
pub struct ItemView {
    pub adapter: Seq<char>,
    pub name: Seq<char>,
    pub version: Seq<char>,
    pub ecosystem: Seq<char>,
    pub source_path: Option<Seq<char>>,
}

impl View for InventoryItem {
    type V = ItemView;

    open spec fn view(&self) -> ItemView {
        ItemView {
            adapter: self.adapter@,
            name: self.name@,
            version: self.version@,
            ecosystem: self.ecosystem@,
            source_path: opt_view(self.source_path),
        }
    }
}

/// The views of a list of items.
pub open spec fn item_views(v: Seq<InventoryItem>) -> Seq<ItemView> {
    v.map_values(|i: InventoryItem| i@)
}

/// An item read from `source` in `ecosystem`.
pub open spec fn item_v(adapter: Seq<char>, name: Seq<char>, version: Seq<char>, source: Seq<char>, ecosystem: Seq<char>) -> ItemView {
    ItemView { adapter, name, version, ecosystem, source_path: Some(source) }
}

impl InventoryItem {
    /// An item with no source, its ecosystem named after the adapter.
    pub fn new(adapter: &str, name: String, version: String) -> (r: Self)
        ensures
            r@ == (ItemView { adapter: adapter@, name: name@, version: version@, ecosystem: adapter@, source_path: None }),
    {
        InventoryItem {
            adapter: string_from(adapter),
            name,
            version,
            ecosystem: string_from(adapter),
            source_path: None,
        }
    }

    /// This item read from `source`.
    pub fn with_source(self, source: &str) -> (r: Self)
        ensures
            r@ == (ItemView { source_path: Some(source@), ..self@ }),
    {
        InventoryItem { source_path: Some(string_from(source)), ..self }
    }

    /// This item in `ecosystem`.
    pub fn with_ecosystem(self, ecosystem: &str) -> (r: Self)
        ensures
            r@ == (ItemView { ecosystem: ecosystem@, ..self@ }),
    {
        InventoryItem { ecosystem: string_from(ecosystem), ..self }
    }
}

/// An item read from `source` in `ecosystem`.
pub fn item(adapter: &str, name: &str, version: &str, source: &str, ecosystem: &str) -> (r: InventoryItem)
    ensures
        r@ == item_v(adapter@, name@, version@, source@, ecosystem@),
{
    InventoryItem::new(adapter, string_from(name), string_from(version)).with_source(source).with_ecosystem(ecosystem)
}

/// Appends one item, keeping track of the views.
pub fn push_item(items: &mut Vec<InventoryItem>, x: InventoryItem)
    ensures
        item_views(final(items)@) == item_views(old(items)@).push(x@),
{
    items.push(x);
    assert(item_views(items@) =~= item_views(old(items)@).push(x@));
}

/// Appends one check, keeping track of the views.
pub fn push_check(checks: &mut Vec<DoctorCheck>, x: DoctorCheck)
    ensures
        check_views(final(checks)@) == check_views(old(checks)@).push(x@),
{
    checks.push(x);
    assert(check_views(checks@) =~= check_views(old(checks)@).push(x@));
}

} // verus!
