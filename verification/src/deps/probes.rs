//! Per-ecosystem probes: the outcome type and the parsers of each tool's output.
pub mod bun;
pub mod cargo;
pub mod go;
pub mod proto;
pub mod uv;

use vstd::prelude::*;
use crate::deps::model::{DependencyRow, DependencyRowView, ToolchainState, row_views};
use crate::text::views;

verus! {

/// Outcome of a single ecosystem probe (timing is added by the planner).
pub struct ProbeOutcome {
    pub state: ToolchainState,
    pub rows: Vec<DependencyRow>,
    pub diagnostics: Vec<String>,
}

/// The model of a probe outcome.
pub struct ProbeOutcomeView {
    pub state: ToolchainState,
    pub rows: Seq<DependencyRowView>,
    pub diagnostics: Seq<Seq<char>>,
}

impl View for ProbeOutcome {
    type V = ProbeOutcomeView;

    open spec fn view(&self) -> ProbeOutcomeView {
        ProbeOutcomeView { state: self.state, rows: row_views(self.rows@), diagnostics: views(self.diagnostics@) }
    }
}

/// Nothing to update.
pub open spec fn up_to_date_spec() -> ProbeOutcomeView {
    ProbeOutcomeView { state: ToolchainState::UpToDate, rows: seq![], diagnostics: seq![] }
}

/// The outcome for a list of outdated rows: up to date when there are none.
pub open spec fn outdated_spec(rows: Seq<DependencyRowView>) -> ProbeOutcomeView {
    if rows.len() == 0 {
        up_to_date_spec()
    } else {
        ProbeOutcomeView { state: ToolchainState::Outdated, rows, diagnostics: seq![] }
    }
}

/// A failed probe with one diagnostic.
pub open spec fn failed_spec(diagnostic: Seq<char>) -> ProbeOutcomeView {
    ProbeOutcomeView { state: ToolchainState::Failed, rows: seq![], diagnostics: seq![diagnostic] }
}

impl ProbeOutcome {
    /// Nothing to update.
    pub fn up_to_date() -> (r: Self)
        ensures
            r@ == up_to_date_spec(),
    {
        let r = ProbeOutcome { state: ToolchainState::UpToDate, rows: Vec::new(), diagnostics: Vec::new() };
        assert(r@.rows =~= seq![]);
        assert(r@.diagnostics =~= seq![]);
        r
    }

    /// Outdated when `rows` is non-empty, up to date otherwise.
    pub fn outdated(rows: Vec<DependencyRow>) -> (r: Self)
        ensures
            r@ == outdated_spec(row_views(rows@)),
    {
        if rows.len() == 0 {
            Self::up_to_date()
        } else {
            let r = ProbeOutcome { state: ToolchainState::Outdated, rows, diagnostics: Vec::new() };
            assert(r@.diagnostics =~= seq![]);
            r
        }
    }

    /// A failed probe with one diagnostic.
    pub fn failed(diagnostic: String) -> (r: Self)
        ensures
            r@ == failed_spec(diagnostic@),
    {
        let mut diagnostics: Vec<String> = Vec::new();
        diagnostics.push(diagnostic);
        let r = ProbeOutcome { state: ToolchainState::Failed, rows: Vec::new(), diagnostics };
        assert(r@.rows =~= seq![]);
        assert(r@.diagnostics =~= seq![diagnostic@]);
        r
    }

    /// This outcome with one more diagnostic.
    pub fn with_diagnostic(self, diagnostic: String) -> (r: Self)
        ensures
            r@ == (ProbeOutcomeView { diagnostics: self@.diagnostics.push(diagnostic@), ..self@ }),
    {
        let mut s = self;
        let ghost old_d = s.diagnostics@;
        s.diagnostics.push(diagnostic);
        assert(views(s.diagnostics@) =~= views(old_d).push(diagnostic@));
        s
    }
}

} // verus!
