//! The form in which a snapshot is kept between invocations.
//!
//! The store holds a list of records, one for each outcome and in the
//! order of the snapshot. A record is the identity and what became of it:
//! `Ok` with the day count, `Ok` with nothing where no key expires, or `Err`
//! with the message of the failure. Turning a snapshot into records and
//! back gives the snapshot again, and so the other way round.

use vstd::prelude::*;

use crate::outcome::{ExpirationOutcome, ExpirationResult, OutcomeView, ResultView, Snapshot};

verus! {

/// A stored result as a mathematical value.
pub open spec fn stored_view(stored: Result<Option<i64>, String>) -> Result<
    Option<int>,
    Seq<char>,
> {
    match stored {
        Ok(Some(days)) => Ok(Some(days as int)),
        Ok(None) => Ok(None),
        Err(message) => Err(message@),
    }
}

/// The stored form of a result.
pub open spec fn stored_of(result: ResultView) -> Result<Option<int>, Seq<char>> {
    match result {
        ResultView::Days(days) => Ok(Some(days)),
        ResultView::NoExpiration => Ok(None),
        ResultView::Failed(message) => Err(message),
    }
}

/// The result that a stored form stands for.
pub open spec fn restored_of(stored: Result<Option<int>, Seq<char>>) -> ResultView {
    match stored {
        Ok(Some(days)) => ResultView::Days(days),
        Ok(None) => ResultView::NoExpiration,
        Err(message) => ResultView::Failed(message),
    }
}

/// A record as a mathematical value.
pub struct RecordView {
    pub identity: Seq<char>,
    pub stored: Result<Option<int>, Seq<char>>,
}

/// Records as mathematical values.
pub open spec fn records_view(records: Seq<(String, Result<Option<i64>, String>)>) -> Seq<
    RecordView,
> {
    Seq::new(
        records.len(),
        |k: int| RecordView { identity: records[k].0@, stored: stored_view(records[k].1) },
    )
}

/// The records of a snapshot.
pub open spec fn records_of(snapshot: Seq<OutcomeView>) -> Seq<RecordView> {
    Seq::new(
        snapshot.len(),
        |k: int|
            RecordView { identity: snapshot[k].identity, stored: stored_of(snapshot[k].result) },
    )
}

/// The snapshot that records stand for.
pub open spec fn snapshot_of_records(records: Seq<RecordView>) -> Seq<OutcomeView> {
    Seq::new(
        records.len(),
        |k: int|
            OutcomeView { identity: records[k].identity, result: restored_of(records[k].stored) },
    )
}

/// Nothing is lost in the store: the records of a snapshot stand for that
/// snapshot, outcome by outcome and in the same order, and the snapshot
/// that records stand for has those records.
pub proof fn lemma_store_round_trip(snapshot: Seq<OutcomeView>, records: Seq<RecordView>)
    ensures
        snapshot_of_records(records_of(snapshot)) == snapshot,
        records_of(snapshot_of_records(records)) == records,
{
}

/// The stored form of a result.
pub fn store_result(result: &ExpirationResult) -> (stored: Result<Option<i64>, String>)
    ensures
        stored_view(stored) == stored_of(result@),
{
    match result {
        ExpirationResult::Days(days) => Ok(Some(*days)),
        ExpirationResult::NoExpiration => Ok(None),
        ExpirationResult::Failed(message) => Err(message.clone()),
    }
}

/// The result that a stored form stands for.
pub fn restore_result(stored: &Result<Option<i64>, String>) -> (result: ExpirationResult)
    ensures
        result@ == restored_of(stored_view(*stored)),
{
    match stored {
        Ok(Some(days)) => ExpirationResult::Days(*days),
        Ok(None) => ExpirationResult::NoExpiration,
        Err(message) => ExpirationResult::Failed(message.clone()),
    }
}

/// The records under which a snapshot is stored.
pub fn to_records(snapshot: &Snapshot) -> (records: Vec<(String, Result<Option<i64>, String>)>)
    ensures
        records_view(records@) == records_of(snapshot@),
{
    let mut records: Vec<(String, Result<Option<i64>, String>)> = Vec::new();
    let mut k: usize = 0;
    while k < snapshot.outcomes.len()
        invariant
            k <= snapshot.outcomes@.len(),
            records@.len() == k,
            forall|j: int|
                0 <= j < k ==> (#[trigger] records@[j]).0@ == snapshot@[j].identity && stored_view(
                    records@[j].1,
                ) == stored_of(snapshot@[j].result),
        decreases snapshot.outcomes.len() - k,
    {
        let outcome = &snapshot.outcomes[k];
        records.push((outcome.identity.clone(), store_result(&outcome.result)));
        k += 1;
    }
    records
}

/// The snapshot that stored records stand for.
pub fn from_records(records: &Vec<(String, Result<Option<i64>, String>)>) -> (snapshot: Snapshot)
    ensures
        snapshot@ == snapshot_of_records(records_view(records@)),
{
    let mut outcomes: Vec<ExpirationOutcome> = Vec::new();
    let mut k: usize = 0;
    while k < records.len()
        invariant
            k <= records@.len(),
            outcomes@.len() == k,
            forall|j: int|
                0 <= j < k ==> (#[trigger] outcomes@[j])@ == snapshot_of_records(
                    records_view(records@),
                )[j],
        decreases records.len() - k,
    {
        let record = &records[k];
        outcomes.push(
            ExpirationOutcome { identity: record.0.clone(), result: restore_result(&record.1) },
        );
        k += 1;
    }
    let snapshot = Snapshot { outcomes };
    snapshot
}

} // verus!
