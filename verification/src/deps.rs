//! Dependency freshness across toolchains: the shared model and the parsers of
//! each ecosystem's outdated reports.
pub mod model;
pub mod probes;
pub mod ui;

use vstd::prelude::*;
use crate::deps::model::ToolchainKind;

verus! {

/// The toolchains eligible for probing, in report order: proto and bun always,
/// rust with both `Cargo.toml` and `Cargo.lock`, uv with at least one uv
/// project, go with at least one Go module.
pub open spec fn eligible_kinds_spec(cargo_files: bool, uv_projects: bool, go_modules: bool) -> Seq<ToolchainKind> {
    seq![ToolchainKind::Proto] + (if cargo_files {
        seq![ToolchainKind::Rust]
    } else {
        seq![]
    }) + seq![ToolchainKind::Bun] + (if uv_projects {
        seq![ToolchainKind::Uv]
    } else {
        seq![]
    }) + (if go_modules {
        seq![ToolchainKind::Go]
    } else {
        seq![]
    })
}

/// Toolchain groups eligible for probing in a repository, in fixed report order.
pub fn eligible_kinds(cargo_files: bool, uv_projects: bool, go_modules: bool) -> (r: Vec<ToolchainKind>)
    ensures
        r@ == eligible_kinds_spec(cargo_files, uv_projects, go_modules),
        forall|i: int, j: int|
            0 <= i < j < r@.len() ==> crate::deps::model::order_index(#[trigger] r@[i])
                < crate::deps::model::order_index(#[trigger] r@[j]),
{
    let mut kinds: Vec<ToolchainKind> = Vec::new();
    kinds.push(ToolchainKind::Proto);
    if cargo_files {
        kinds.push(ToolchainKind::Rust);
    }
    kinds.push(ToolchainKind::Bun);
    if uv_projects {
        kinds.push(ToolchainKind::Uv);
    }
    if go_modules {
        kinds.push(ToolchainKind::Go);
    }
    assert(kinds@ =~= eligible_kinds_spec(cargo_files, uv_projects, go_modules));
    kinds
}

} // verus!
