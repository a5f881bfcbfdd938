//! What an action reports once it is over.

use vstd::prelude::*;
use vstd::string::*;

verus! {

/// The one terminal outcome of an action.
#[derive(Debug, Clone, PartialEq, Eq)]
pub enum ActionResult {
    /// The action did what it was meant to do.
    Success,
    /// The action was attempted and did not complete; the reason is for the operator.
    Failure(String),
    /// The action was deliberately not attempted, and nothing was changed.
    Skipped(String),
}

/// An outcome as a mathematical value: the reasons are sequences of characters.
pub enum Outcome {
    Success,
    Failure(Seq<char>),
    Skipped(Seq<char>),
}

impl View for ActionResult {
    type V = Outcome;

    open spec fn view(&self) -> Outcome {
        match self {
            ActionResult::Success => Outcome::Success,
            ActionResult::Failure(reason) => Outcome::Failure(reason@),
            ActionResult::Skipped(reason) => Outcome::Skipped(reason@),
        }
    }
}

/// The line by which an outcome is reported to the operator.
pub open spec fn report_line(outcome: Outcome) -> Seq<char> {
    match outcome {
        Outcome::Success => "Success"@,
        Outcome::Failure(reason) => "Failure: "@ + reason,
        Outcome::Skipped(reason) => "Skipped: "@ + reason,
    }
}

impl ActionResult {
    /// A failure with the given reason.
    pub fn failure(reason: &str) -> (result: ActionResult)
        ensures
            result@ == Outcome::Failure(reason@),
    {
        ActionResult::Failure(String::from_str(reason))
    }

    /// A skip with the given reason.
    pub fn skipped(reason: &str) -> (result: ActionResult)
        ensures
            result@ == Outcome::Skipped(reason@),
    {
        ActionResult::Skipped(String::from_str(reason))
    }

    /// Whether the action was attempted and did not complete.
    pub fn is_failure(&self) -> (failed: bool)
        ensures
            failed == (self@ is Failure),
    {
        match self {
            ActionResult::Failure(_) => true,
            _ => false,
        }
    }

    /// The line that reports this outcome.
    pub fn report(&self) -> (line: String)
        ensures
            line@ == report_line(self@),
    {
        match self {
            ActionResult::Success => String::from_str("Success"),
            ActionResult::Failure(reason) => {
                let mut line = String::from_str("Failure: ");
                line.append(reason.as_str());
                line
            },
            ActionResult::Skipped(reason) => {
                let mut line = String::from_str("Skipped: ");
                line.append(reason.as_str());
                line
            },
        }
    }

    /// A copy of this outcome.
    pub fn duplicate(&self) -> (copy: ActionResult)
        ensures
            copy@ == self@,
    {
        match self {
            ActionResult::Success => ActionResult::Success,
            ActionResult::Failure(reason) => ActionResult::Failure(reason.clone()),
            ActionResult::Skipped(reason) => ActionResult::Skipped(reason.clone()),
        }
    }
}

} // verus!
