//! The two listings that the collector reads from a snapshot: its
//! configuration and its values.

use vstd::prelude::*;
use vstd::string::StringExecFns;

use crate::fieldname::{clean_fieldname, field_name};
use crate::outcome::{ExpirationResult, OutcomeView, ResultView, Snapshot};
use crate::text::{decimal, digits, push_decimal};

verus! {

/// The value reported for an identity whose resolution failed.
pub const SENTINEL: i64 = -999;

/// One numeric record of the value listing.
#[derive(Debug, PartialEq, Eq)]
pub struct ValueRecord {
    /// The field name of the identity.
    pub field: String,
    pub value: i64,
}

/// A `ValueRecord` as a mathematical value.
pub struct ValueRecordView {
    pub field: Seq<char>,
    pub value: int,
}

impl View for ValueRecord {
    type V = ValueRecordView;

    open spec fn view(&self) -> ValueRecordView {
        ValueRecordView { field: self.field@, value: self.value as int }
    }
}

/// One descriptive record of the configuration listing.
#[derive(Debug, PartialEq, Eq)]
pub struct ConfigRecord {
    /// The field name of the identity.
    pub field: String,
    /// The identity itself, as the label of the field.
    pub label: String,
    /// The message of the failure, where the resolution failed.
    pub extinfo: Option<String>,
}

/// A `ConfigRecord` as a mathematical value.
pub struct ConfigRecordView {
    pub field: Seq<char>,
    pub label: Seq<char>,
    pub extinfo: Option<Seq<char>>,
}

impl View for ConfigRecord {
    type V = ConfigRecordView;

    open spec fn view(&self) -> ConfigRecordView {
        ConfigRecordView {
            field: self.field@,
            label: self.label@,
            extinfo: match self.extinfo {
                Some(message) => Some(message@),
                None => None,
            },
        }
    }
}

/// The value record of an outcome: the day count under the identity's field
/// name; the sentinel in place of the count where the resolution failed;
/// and no record where no key expires.
pub open spec fn value_record_of(outcome: OutcomeView) -> Option<ValueRecordView> {
    match outcome.result {
        ResultView::Days(days) => Some(
            ValueRecordView { field: field_name(outcome.identity), value: days },
        ),
        ResultView::NoExpiration => None,
        ResultView::Failed(_) => Some(
            ValueRecordView { field: field_name(outcome.identity), value: SENTINEL as int },
        ),
    }
}

/// The value records of a snapshot, in the order of its outcomes.
pub open spec fn value_records_of(snapshot: Seq<OutcomeView>) -> Seq<ValueRecordView> {
    snapshot.filter_map(|outcome: OutcomeView| value_record_of(outcome))
}

/// The line of a value record: the field name, `.value`, and the value in
/// decimal.
pub open spec fn value_line(record: ValueRecordView) -> Seq<char> {
    record.field + ".value "@ + decimal(record.value) + "\n"@
}

/// The lines of value records, one after the other.
pub open spec fn value_lines(records: Seq<ValueRecordView>) -> Seq<char>
    decreases records.len(),
{
    if records.len() == 0 {
        Seq::empty()
    } else {
        value_lines(records.drop_last()) + value_line(records.last())
    }
}

/// The value listing of a snapshot.
pub open spec fn fetch_text(snapshot: Seq<OutcomeView>) -> Seq<char> {
    value_lines(value_records_of(snapshot))
}

/// The configuration record of an outcome: the identity under its field
/// name, with the message where the resolution failed; and no record where
/// no key expires.
pub open spec fn config_record_of(outcome: OutcomeView) -> Option<ConfigRecordView> {
    match outcome.result {
        ResultView::Days(_) => Some(
            ConfigRecordView {
                field: field_name(outcome.identity),
                label: outcome.identity,
                extinfo: None,
            },
        ),
        ResultView::NoExpiration => None,
        ResultView::Failed(message) => Some(
            ConfigRecordView {
                field: field_name(outcome.identity),
                label: outcome.identity,
                extinfo: Some(message),
            },
        ),
    }
}

/// The configuration records of a snapshot, in the order of its outcomes.
pub open spec fn config_records_of(snapshot: Seq<OutcomeView>) -> Seq<ConfigRecordView> {
    snapshot.filter_map(|outcome: OutcomeView| config_record_of(outcome))
}

/// The lines of a configuration record, each under the field name. A record
/// of a day count has its label and the warning and critical thresholds. A
/// record of a failure has its label and the message of the failure, and no
/// thresholds: there is no count to hold against them.
pub open spec fn config_lines_of(record: ConfigRecordView) -> Seq<char> {
    let label = record.field + ".label "@ + record.label + "\n"@;
    match record.extinfo {
        Some(message) => label + record.field + ".extinfo "@ + message + "\n"@,
        None => label + record.field + ".warning 14:\n"@ + record.field + ".critical 7:\n"@,
    }
}

/// The lines of configuration records, one record after the other.
pub open spec fn config_lines(records: Seq<ConfigRecordView>) -> Seq<char>
    decreases records.len(),
{
    if records.len() == 0 {
        Seq::empty()
    } else {
        config_lines(records.drop_last()) + config_lines_of(records.last())
    }
}

/// The configuration listing of a snapshot: the two lines that describe the
/// graph, then the lines of each record.
pub open spec fn config_text(snapshot: Seq<OutcomeView>) -> Seq<char> {
    "graph_title OpenPGP key expiration\n"@ + "graph_vlabel days to expiration\n"@ + config_lines(
        config_records_of(snapshot),
    )
}

/// The views of records.
pub open spec fn value_records_view(records: Seq<ValueRecord>) -> Seq<ValueRecordView> {
    Seq::new(records.len(), |k: int| records[k]@)
}

/// The views of records.
pub open spec fn config_records_view(records: Seq<ConfigRecord>) -> Seq<ConfigRecordView> {
    Seq::new(records.len(), |k: int| records[k]@)
}

/// The records of the value listing: one for each outcome with a day count,
/// one with the sentinel for each failed outcome, none for an outcome
/// without an expiration; in the order of the snapshot.
pub fn value_records(snapshot: &Snapshot) -> (records: Vec<ValueRecord>)
    ensures
        value_records_view(records@) == value_records_of(snapshot@),
{
    let mut records: Vec<ValueRecord> = Vec::new();
    let mut k: usize = 0;
    while k < snapshot.outcomes.len()
        invariant
            k <= snapshot.outcomes@.len(),
            value_records_view(records@) == value_records_of(snapshot@.take(k as int)),
        decreases snapshot.outcomes.len() - k,
    {
        assert(snapshot@.take(k + 1).drop_last() =~= snapshot@.take(k as int));
        let outcome = &snapshot.outcomes[k];
        match &outcome.result {
            ExpirationResult::Days(days) => {
                records.push(
                    ValueRecord { field: clean_fieldname(outcome.identity.as_str()), value: *days },
                );
            },
            ExpirationResult::NoExpiration => {},
            ExpirationResult::Failed(_) => {
                records.push(
                    ValueRecord {
                        field: clean_fieldname(outcome.identity.as_str()),
                        value: SENTINEL,
                    },
                );
            },
        }
        k += 1;
    }
    assert(snapshot@.take(k as int) =~= snapshot@);
    records
}

/// Writes value records as the lines of the value listing.
pub fn render_values(records: &Vec<ValueRecord>) -> (text: String)
    ensures
        text@ == value_lines(value_records_view(records@)),
{
    let ghost all = value_records_view(records@);
    let mut text = String::new();
    let mut k: usize = 0;
    while k < records.len()
        invariant
            k <= records@.len(),
            all == value_records_view(records@),
            text@ == value_lines(all.take(k as int)),
        decreases records.len() - k,
    {
        assert(all.take(k + 1).drop_last() =~= all.take(k as int));
        let record = &records[k];
        text.append(record.field.as_str());
        text.append(".value ");
        push_decimal(&mut text, record.value);
        text.append("\n");
        k += 1;
    }
    assert(all.take(k as int) =~= all);
    text
}

/// The value listing of a snapshot: a line with the day count for each
/// identity that has one, a line with the sentinel for each identity whose
/// resolution failed, and nothing for an identity whose keys never expire.
pub fn fetch(snapshot: &Snapshot) -> (text: String)
    ensures
        text@ == fetch_text(snapshot@),
{
    let records = value_records(snapshot);
    render_values(&records)
}

/// The records of the configuration listing: one for each outcome with a
/// day count, one with the message for each failed outcome, none for an
/// outcome without an expiration; in the order of the snapshot.
pub fn config_records(snapshot: &Snapshot) -> (records: Vec<ConfigRecord>)
    ensures
        config_records_view(records@) == config_records_of(snapshot@),
{
    let mut records: Vec<ConfigRecord> = Vec::new();
    let mut k: usize = 0;
    while k < snapshot.outcomes.len()
        invariant
            k <= snapshot.outcomes@.len(),
            config_records_view(records@) == config_records_of(snapshot@.take(k as int)),
        decreases snapshot.outcomes.len() - k,
    {
        assert(snapshot@.take(k + 1).drop_last() =~= snapshot@.take(k as int));
        let outcome = &snapshot.outcomes[k];
        match &outcome.result {
            ExpirationResult::Days(_) => {
                records.push(
                    ConfigRecord {
                        field: clean_fieldname(outcome.identity.as_str()),
                        label: outcome.identity.clone(),
                        extinfo: None,
                    },
                );
            },
            ExpirationResult::NoExpiration => {},
            ExpirationResult::Failed(message) => {
                records.push(
                    ConfigRecord {
                        field: clean_fieldname(outcome.identity.as_str()),
                        label: outcome.identity.clone(),
                        extinfo: Some(message.clone()),
                    },
                );
            },
        }
        k += 1;
    }
    assert(snapshot@.take(k as int) =~= snapshot@);
    records
}

/// Writes configuration records as lines, without the lines that describe
/// the graph: label and thresholds for a record of a day count, label and
/// message for a record of a failure.
pub fn render_config(records: &Vec<ConfigRecord>) -> (text: String)
    ensures
        text@ == config_lines(config_records_view(records@)),
{
    let ghost all = config_records_view(records@);
    let mut text = String::new();
    let mut k: usize = 0;
    while k < records.len()
        invariant
            k <= records@.len(),
            all == config_records_view(records@),
            text@ == config_lines(all.take(k as int)),
        decreases records.len() - k,
    {
        assert(all.take(k + 1).drop_last() =~= all.take(k as int));
        let record = &records[k];
        let field = record.field.as_str();
        text.append(field);
        text.append(".label ");
        text.append(record.label.as_str());
        text.append("\n");
        match &record.extinfo {
            Some(message) => {
                text.append(field);
                text.append(".extinfo ");
                text.append(message.as_str());
                text.append("\n");
            },
            None => {
                text.append(field);
                text.append(".warning 14:\n");
                text.append(field);
                text.append(".critical 7:\n");
            },
        }
        k += 1;
    }
    assert(all.take(k as int) =~= all);
    text
}

/// The configuration listing of a snapshot: the description of the graph,
/// then label and thresholds for each identity that has a day count, and
/// label and the message of the failure, without thresholds, for each
/// identity whose resolution failed. An identity whose keys never expire is
/// left out.
pub fn config(snapshot: &Snapshot) -> (text: String)
    ensures
        text@ == config_text(snapshot@),
{
    let records = config_records(snapshot);
    let lines = render_config(&records);
    let mut text = String::new();
    text.append("graph_title OpenPGP key expiration\n");
    text.append("graph_vlabel days to expiration\n");
    text.append(lines.as_str());
    text
}

/// How many outcomes of a snapshot are reported: those with a day count and
/// those that failed.
pub open spec fn reported(snapshot: Seq<OutcomeView>) -> nat
    decreases snapshot.len(),
{
    if snapshot.len() == 0 {
        0
    } else if snapshot.last().result is NoExpiration {
        reported(snapshot.drop_last())
    } else {
        reported(snapshot.drop_last()) + 1
    }
}

/// Value mode, outcome by outcome. An outcome without an expiration adds
/// nothing to the listing; a failed outcome adds the line of its field with
/// the value `-999`; an outcome with a day count adds the line of its field
/// with that count, below zero as well as above.
pub proof fn lemma_value_mode(before: Seq<OutcomeView>, outcome: OutcomeView)
    ensures
        outcome.result is NoExpiration ==> fetch_text(before.push(outcome)) == fetch_text(before),
        outcome.result is Failed ==> fetch_text(before.push(outcome)) == fetch_text(before) + (
        field_name(outcome.identity) + ".value -999\n"@),
        outcome.result matches ResultView::Days(days) ==> fetch_text(before.push(outcome))
            == fetch_text(before) + (field_name(outcome.identity) + ".value "@ + decimal(days)
            + "\n"@),
{
    assert(before.push(outcome).drop_last() =~= before);
    reveal_strlit(".value -999\n");
    reveal_strlit(".value ");
    reveal_strlit("\n");
    reveal_with_fuel(digits, 3);
    if let Some(record) = value_record_of(outcome) {
        assert((value_records_of(before) + seq![record]).drop_last() =~= value_records_of(before));
    }
}

/// Configuration mode, outcome by outcome. An outcome without an expiration
/// adds no record; an outcome with a day count and a failed outcome each
/// add exactly one, labelled with the identity, the failed one with its
/// message. To the listing, an outcome with a day count adds its label and
/// the two thresholds, and a failed outcome adds its label and its message
/// and no threshold, each line under the field name of the identity.
pub proof fn lemma_config_mode(before: Seq<OutcomeView>, outcome: OutcomeView)
    ensures
        outcome.result is NoExpiration ==> config_records_of(before.push(outcome))
            == config_records_of(before),
        outcome.result is Days ==> config_records_of(before.push(outcome)) == config_records_of(
            before,
        ).push(
            ConfigRecordView {
                field: field_name(outcome.identity),
                label: outcome.identity,
                extinfo: None,
            },
        ),
        outcome.result matches ResultView::Failed(message) ==> config_records_of(
            before.push(outcome),
        ) == config_records_of(before).push(
            ConfigRecordView {
                field: field_name(outcome.identity),
                label: outcome.identity,
                extinfo: Some(message),
            },
        ),
        outcome.result is NoExpiration ==> config_text(before.push(outcome)) == config_text(before),
        outcome.result is Days ==> config_text(before.push(outcome)) == config_text(before) + (
        field_name(outcome.identity) + ".label "@ + outcome.identity + "\n"@ + field_name(
            outcome.identity,
        ) + ".warning 14:\n"@ + field_name(outcome.identity) + ".critical 7:\n"@),
        outcome.result matches ResultView::Failed(message) ==> config_text(before.push(outcome))
            == config_text(before) + (field_name(outcome.identity) + ".label "@ + outcome.identity
            + "\n"@ + field_name(outcome.identity) + ".extinfo "@ + message + "\n"@),
{
    assert(before.push(outcome).drop_last() =~= before);
    if let Some(record) = config_record_of(outcome) {
        assert((config_records_of(before) + seq![record]).drop_last() =~= config_records_of(
            before,
        ));
    }
}

/// Both listings hold one record for each reported outcome of the snapshot,
/// and none for the others.
pub proof fn lemma_one_record_each(snapshot: Seq<OutcomeView>)
    ensures
        config_records_of(snapshot).len() == reported(snapshot),
        value_records_of(snapshot).len() == reported(snapshot),
    decreases snapshot.len(),
{
    if snapshot.len() > 0 {
        lemma_one_record_each(snapshot.drop_last());
    }
}

} // verus!
