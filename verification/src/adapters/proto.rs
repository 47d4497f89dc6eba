//! The proto adapter: toolchain pins in `.prototools`.
use vstd::prelude::*;
use crate::adapters::AdapterKind;
use crate::diagnostics::{
    DoctorCheck, CheckView, InventoryItem, ItemView, check_views, item_views, item_v, ok_check, warn_check, ok, warn,
    push_check, push_item,
};
use crate::text::{
    trim, starts_with, split_once, lines, trim_chars, starts_with_str, split_once_str, lines_str, string_from,
    string_of,
};

verus! {

/// The proto backend.
pub struct ProtoBackend;

/// The checks `doctor` reports for proto, given whether `.prototools` exists.
pub open spec fn proto_doctor_spec(prototools: bool) -> Seq<CheckView> {
    if prototools {
        seq![ok_check("proto-adapter"@, ".prototools present"@)]
    } else {
        seq![warn_check("proto-adapter"@, ".prototools missing"@, Some("Toolchain pins may be missing"@))]
    }
}

/// The pin a `.prototools` line declares, if any: `tool = version`, skipping
/// blank lines and comments.
pub open spec fn proto_line_item(line: Seq<char>) -> Option<ItemView> {
    let t = trim(line);
    if t.len() == 0 || starts_with(t, "#"@) {
        None
    } else {
        match split_once(t, "="@) {
            Some((tool, version)) => Some(item_v("proto"@, trim(tool), trim(version), ".prototools"@, "proto"@)),
            None => None,
        }
    }
}

/// The pins declared by a list of lines, in order.
pub open spec fn proto_items(lines: Seq<Seq<char>>) -> Seq<ItemView>
    decreases lines.len(),
{
    if lines.len() == 0 {
        seq![]
    } else {
        proto_items(lines.drop_last()) + match proto_line_item(lines.last()) {
            Some(x) => seq![x],
            None => seq![],
        }
    }
}

impl ProtoBackend {
    /// This backend's adapter.
    pub fn kind(&self) -> (r: AdapterKind)
        ensures
            r == AdapterKind::Proto,
    {
        AdapterKind::Proto
    }

    /// The checks `doctor` reports, given whether `.prototools` exists.
    pub fn doctor(&self, prototools: bool) -> (r: Vec<DoctorCheck>)
        ensures
            check_views(r@) == proto_doctor_spec(prototools),
    {
        let mut checks: Vec<DoctorCheck> = Vec::new();
        if prototools {
            push_check(&mut checks, ok("proto-adapter", string_from(".prototools present")));
        } else {
            push_check(
                &mut checks,
                warn("proto-adapter", string_from(".prototools missing"), string_from("Toolchain pins may be missing")),
            );
        }
        assert(check_views(checks@) =~= proto_doctor_spec(prototools));
        checks
    }

    /// The pins of the `.prototools` text (`None` when the file does not exist).
    pub fn export_inventory(&self, text: Option<&str>) -> (r: Vec<InventoryItem>)
        ensures
            item_views(r@) == match text {
                Some(t) => proto_items(lines(t@)),
                None => seq![],
            },
    {
        let mut items: Vec<InventoryItem> = Vec::new();
        let t = match text {
            Some(t) => t,
            None => {
                assert(item_views(items@) =~= seq![]);
                return items;
            },
        };
        let ls = lines_str(t);
        let ghost lv = ls@.map_values(|p: Vec<char>| p@);
        let mut i: usize = 0;
        while i < ls.len()
            invariant
                lv == lines(t@),
                ls@.map_values(|p: Vec<char>| p@) == lv,
                i <= ls@.len(),
                item_views(items@) == proto_items(lv.take(i as int)),
            decreases ls@.len() - i,
        {
            proof {
                assert(lv.take(i + 1).drop_last() =~= lv.take(i as int));
                assert(ls@[i as int]@ == lv[i as int]);
            }
            let ghost before = item_views(items@);
            let line = trim_chars(ls[i].as_slice());
            if line.len() != 0 && !starts_with_str(line.as_slice(), "#") {
                match split_once_str(line.as_slice(), "=") {
                    Some((tool, version)) => {
                        let tt = trim_chars(tool.as_slice());
                        let vt = trim_chars(version.as_slice());
                        let x = InventoryItem::new("proto", string_of(tt.as_slice()), string_of(vt.as_slice()))
                            .with_source(".prototools").with_ecosystem("proto");
                        push_item(&mut items, x);
                    },
                    None => {},
                }
            }
            proof {
                assert(item_views(items@) =~= proto_items(lv.take(i + 1)));
            }
            i = i + 1;
        }
        proof {
            assert(lv.take(ls@.len() as int) =~= lv);
        }
        items
    }
}

} // verus!
