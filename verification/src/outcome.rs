//! What is known of one identity after a run, and the snapshot of a run.

use vstd::prelude::*;

verus! {

/// How the resolution of one identity ended.
#[derive(Debug, PartialEq, Eq)]
pub enum ExpirationResult {
    /// Whole days until the soonest expiration among the eligible keys;
    /// negative once that expiration has passed.
    Days(i64),
    /// The credential was resolved and none of its eligible keys expires.
    NoExpiration,
    /// The resolution failed; the message names the step and the cause.
    Failed(String),
}

/// An `ExpirationResult` as a mathematical value.
pub enum ResultView {
    Days(int),
    NoExpiration,
    Failed(Seq<char>),
}

impl View for ExpirationResult {
    type V = ResultView;

    open spec fn view(&self) -> ResultView {
        match self {
            ExpirationResult::Days(days) => ResultView::Days(*days as int),
            ExpirationResult::NoExpiration => ResultView::NoExpiration,
            ExpirationResult::Failed(message) => ResultView::Failed(message@),
        }
    }
}

impl Clone for ExpirationResult {
    fn clone(&self) -> (copy: ExpirationResult)
        ensures
            copy@ == self@,
    {
        match self {
            ExpirationResult::Days(days) => ExpirationResult::Days(*days),
            ExpirationResult::NoExpiration => ExpirationResult::NoExpiration,
            ExpirationResult::Failed(message) => ExpirationResult::Failed(message.clone()),
        }
    }
}

/// The result of one identity, with the identity it belongs to.
#[derive(Debug, PartialEq, Eq)]
pub struct ExpirationOutcome {
    /// The email address, as it was configured.
    pub identity: String,
    pub result: ExpirationResult,
}

/// An `ExpirationOutcome` as a mathematical value.
pub struct OutcomeView {
    pub identity: Seq<char>,
    pub result: ResultView,
}

impl View for ExpirationOutcome {
    type V = OutcomeView;

    open spec fn view(&self) -> OutcomeView {
        OutcomeView { identity: self.identity@, result: self.result@ }
    }
}

impl Clone for ExpirationOutcome {
    fn clone(&self) -> (copy: ExpirationOutcome)
        ensures
            copy@ == self@,
    {
        ExpirationOutcome { identity: self.identity.clone(), result: self.result.clone() }
    }
}

/// The outcomes of one run, one for each configured identity, in the order
/// in which the identities were configured.
#[derive(Debug, PartialEq, Eq)]
pub struct Snapshot {
    pub outcomes: Vec<ExpirationOutcome>,
}

impl Clone for Snapshot {
    fn clone(&self) -> (copy: Snapshot)
        ensures
            copy@ == self@,
    {
        let mut outcomes: Vec<ExpirationOutcome> = Vec::new();
        let mut k: usize = 0;
        while k < self.outcomes.len()
            invariant
                k <= self.outcomes@.len(),
                outcomes@.len() == k,
                forall|j: int| 0 <= j < k ==> (#[trigger] outcomes@[j])@ == self.outcomes@[j]@,
            decreases self.outcomes.len() - k,
        {
            outcomes.push(self.outcomes[k].clone());
            k += 1;
        }
        let copy = Snapshot { outcomes };
        copy
    }
}

impl View for Snapshot {
    type V = Seq<OutcomeView>;

    open spec fn view(&self) -> Seq<OutcomeView> {
        Seq::new(self.outcomes@.len(), |i: int| self.outcomes@[i]@)
    }
}

} // verus!
