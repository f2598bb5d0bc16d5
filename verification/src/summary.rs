//! The summary of a run.

use vstd::prelude::*;

verus! {

/// How a run ended as a whole.
#[derive(Debug, Clone, Copy, PartialEq, Eq, Structural)]
pub enum FinalStatus {
    /// Every step was attempted and none failed.
    Passed,
    /// The steps could not be fetched, or at least one step failed.
    Failed,
    /// The test has no steps.
    NoSteps,
}

/// What a run of a test came to.
#[derive(Debug, Clone, PartialEq, Eq)]
pub struct RunSummary {
    pub test_id: String,
    pub attempted: usize,
    pub failed: usize,
    pub final_status: FinalStatus,
    pub error_detail: Option<String>,
}

/// A run summary as plain values.
pub struct SummaryView {
    pub test_id: Seq<char>,
    pub attempted: nat,
    pub failed: nat,
    pub final_status: FinalStatus,
    pub error_detail: Option<Seq<char>>,
}

impl View for RunSummary {
    type V = SummaryView;

    open spec fn view(&self) -> SummaryView {
        SummaryView {
            test_id: self.test_id@,
            attempted: self.attempted as nat,
            failed: self.failed as nat,
            final_status: self.final_status,
            error_detail: self.error_detail.deep_view(),
        }
    }
}

/// What holds of every summary that a run gives: no more steps failed than
/// were attempted, and the status goes with the counts.
pub open spec fn consistent(s: SummaryView) -> bool {
    &&& s.failed <= s.attempted
    &&& s.final_status == FinalStatus::NoSteps ==> s.attempted == 0 && s.error_detail is None
    &&& s.final_status == FinalStatus::Passed ==> s.attempted > 0 && s.failed == 0
        && s.error_detail is None
    &&& s.final_status == FinalStatus::Failed ==> s.failed > 0 || s.error_detail is Some
}

/// The word under which a status is reported to the step source.
pub open spec fn status_word(status: FinalStatus) -> Seq<char> {
    match status {
        FinalStatus::Passed => "passed"@,
        FinalStatus::Failed => "failed"@,
        FinalStatus::NoSteps => "no-steps"@,
    }
}

impl FinalStatus {
    /// The word under which the status is reported to the step source.
    pub fn word(&self) -> (r: &'static str)
        ensures
            r@ == status_word(*self),
    {
        match self {
            FinalStatus::Passed => "passed",
            FinalStatus::Failed => "failed",
            FinalStatus::NoSteps => "no-steps",
        }
    }
}

} // verus!
