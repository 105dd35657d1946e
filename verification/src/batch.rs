//! One run over all configured identities.
//!
//! A batch is opened on the list of identities and one reference time. Each
//! identity has a slot. The caller fetches the lookup URL of every open slot,
//! in any order and as concurrently as it likes, and delivers each reply to
//! its slot. A slot is settled by its own identity and its own reply alone,
//! so neither the order of the replies nor the failure of a neighbour shows
//! in the snapshot.

use vstd::prelude::*;

use crate::directory::{located, lookup_url, retrieved, wkd_lookup, Reply, ReplyView};
use crate::evaluator::{evaluate, resolution};
use crate::failure::FailureView;
use crate::outcome::{ExpirationOutcome, ExpirationResult, OutcomeView, ResultView, Snapshot};
use crate::text::strings_view;
use crate::time::ReferenceTime;

verus! {

/// A run in progress.
pub struct Batch {
    now: ReferenceTime,
    identities: Vec<String>,
    requests: Vec<Option<String>>,
    results: Vec<Option<ExpirationResult>>,
}

/// A `Batch` as a mathematical value: the reference time in nanoseconds
/// since the Unix epoch, the identities in their configured order, and for
/// each identity its result, once it is settled.
pub struct BatchView {
    pub now: int,
    pub identities: Seq<Seq<char>>,
    pub results: Seq<Option<ResultView>>,
}

/// The batch as it is opened: the slot of an identity without a lookup URL
/// is settled with that failure, every other slot is open.
pub open spec fn opened(identities: Seq<Seq<char>>, now: int) -> BatchView {
    BatchView {
        now,
        identities,
        results: Seq::new(
            identities.len(),
            |k: int|
                match located(wkd_lookup(identities[k])) {
                    Ok(_) => None,
                    Err(failure) => Some(ResultView::Failed(failure.message())),
                },
        ),
    }
}

/// The batch after `reply` was delivered to slot `k`: an open slot is
/// settled with the result of the reply, and nothing else changes. A reply
/// to a settled slot, or to no slot of the batch, is dropped.
pub open spec fn delivered(batch: BatchView, k: int, reply: ReplyView) -> BatchView {
    if 0 <= k < batch.results.len() && batch.results[k] is None {
        BatchView {
            now: batch.now,
            identities: batch.identities,
            results: batch.results.update(k, Some(resolution(reply, batch.now))),
        }
    } else {
        batch
    }
}

/// Whether every slot is settled.
pub open spec fn complete(batch: BatchView) -> bool {
    forall|k: int| 0 <= k < batch.results.len() ==> (#[trigger] batch.results[k]) is Some
}

/// The snapshot of a complete batch: for each identity, at its configured
/// position, the identity and its result.
pub open spec fn snapshot_of(batch: BatchView) -> Seq<OutcomeView> {
    Seq::new(
        batch.identities.len(),
        |k: int| OutcomeView { identity: batch.identities[k], result: batch.results[k]->0 },
    )
}

/// The batch that a reading of the wall clock opens on `identities`. A
/// reading is the whole seconds since the Unix epoch and the nanoseconds on
/// top of them, and there is none where the clock stands before the epoch.
/// There is a batch exactly where there is a reading whose seconds fit the
/// 32 bits of an OpenPGP timestamp; its reference time is that reading.
pub open spec fn started(identities: Seq<Seq<char>>, reading: Option<(u64, u32)>) -> Option<
    BatchView,
> {
    match reading {
        Some((secs, nanos)) => if secs <= u32::MAX {
            Some(opened(identities, secs * 1_000_000_000 + nanos))
        } else {
            None
        },
        None => None,
    }
}

/// Reads the wall clock with the standard library's `SystemTime::now` and
/// hands out how far it stands after `UNIX_EPOCH`: whole seconds, and the
/// nanoseconds on top of them. There is no reading where the clock stands
/// before the epoch. Nothing is promised of the reading.
#[verifier::external_body]
fn wall_clock() -> (reading: Option<(u64, u32)>) {
    match std::time::SystemTime::now().duration_since(std::time::UNIX_EPOCH) {
        Ok(elapsed) => Some((elapsed.as_secs(), elapsed.subsec_nanos())),
        Err(_) => None,
    }
}

impl View for Batch {
    type V = BatchView;

    closed spec fn view(&self) -> BatchView {
        BatchView {
            now: self.now@,
            identities: strings_view(self.identities@),
            results: Seq::new(
                self.results@.len(),
                |k: int|
                    match self.results@[k] {
                        Some(result) => Some(result@),
                        None => None,
                    },
            ),
        }
    }
}

impl Batch {
    /// What holds of every batch: each identity has a slot, an open slot has
    /// its lookup URL at hand, and the slot of an identity without a lookup
    /// URL is settled with that failure.
    #[verifier::type_invariant]
    spec fn wf(&self) -> bool {
        &&& self.requests@.len() == self.identities@.len()
        &&& self.results@.len() == self.identities@.len()
        &&& forall|k: int|
            0 <= k < self.identities@.len() ==> match located(
                wkd_lookup(#[trigger] self.identities@[k]@),
            ) {
                Ok(url) => self.requests@[k] matches Some(request) && request@ == url,
                Err(failure) => self.results@[k] matches Some(result) && result@
                    == ResultView::Failed(failure.message()),
            }
    }

    /// Opens a batch on `identities` at the reference time `now`. The lookup
    /// URL of each identity is derived here; an identity that has none is
    /// settled at once with that failure.
    pub fn start_at(identities: Vec<String>, now: ReferenceTime) -> (batch: Batch)
        ensures
            batch@ == opened(strings_view(identities@), now@),
    {
        let mut requests: Vec<Option<String>> = Vec::new();
        let mut results: Vec<Option<ExpirationResult>> = Vec::new();
        let mut k: usize = 0;
        while k < identities.len()
            invariant
                k <= identities.len(),
                requests@.len() == k,
                results@.len() == k,
                forall|j: int|
                    0 <= j < k ==> match located(wkd_lookup(#[trigger] identities@[j]@)) {
                        Ok(url) => requests@[j] matches Some(request) && request@ == url
                            && results@[j] is None,
                        Err(failure) => results@[j] matches Some(result) && result@
                            == ResultView::Failed(failure.message()),
                    },
            decreases identities.len() - k,
        {
            match lookup_url(identities[k].as_str()) {
                Ok(url) => {
                    requests.push(Some(url));
                    results.push(None);
                },
                Err(failure) => {
                    requests.push(None);
                    results.push(Some(ExpirationResult::Failed(failure.message())));
                },
            }
            k += 1;
        }
        let batch = Batch { now, identities, requests, results };
        assert(batch@.results =~= opened(strings_view(identities@), now@).results);
        batch
    }

    /// Opens a batch on `identities` at the time the wall clock shows, read
    /// once. There is no batch where the clock shows a time that no OpenPGP
    /// timestamp can hold: one before the Unix epoch, or one whose seconds
    /// since the epoch do not fit 32 bits.
    pub fn start(identities: Vec<String>) -> (batch: Option<Batch>)
        ensures
            batch matches Some(batch) ==> batch@ == opened(
                strings_view(identities@),
                batch@.now,
            ),
    {
        Batch::start_on(identities, wall_clock())
    }

    /// Opens a batch on `identities` at the time that a reading of the wall
    /// clock shows. There is a batch exactly where there is a reading and
    /// its seconds fit an OpenPGP timestamp; the reading is then the
    /// reference time of the batch.
    pub fn start_on(identities: Vec<String>, reading: Option<(u64, u32)>) -> (batch: Option<Batch>)
        ensures
            batch is Some <==> started(strings_view(identities@), reading) is Some,
            batch matches Some(batch) ==> Some(batch@) == started(
                strings_view(identities@),
                reading,
            ),
    {
        match reading {
            Some((secs, nanos)) => if secs <= 0xffff_ffff {
                Some(Batch::start_at(identities, ReferenceTime { secs: secs as u32, nanos }))
            } else {
                None
            },
            None => None,
        }
    }

    /// The number of identities, settled or not.
    pub fn len(&self) -> (len: usize)
        ensures
            len == self@.identities.len(),
            len == self@.results.len(),
    {
        proof {
            use_type_invariant(self);
        }
        self.identities.len()
    }

    /// The reference time of the batch.
    pub fn now(&self) -> (now: ReferenceTime)
        ensures
            now@ == self@.now,
    {
        self.now
    }

    /// The URL to fetch for slot `k`, where the slot is still open.
    pub fn request(&self, k: usize) -> (url: Option<String>)
        ensures
            url is Some <==> k < self@.results.len() && self@.results[k as int] is None,
            url matches Some(url) ==> located(wkd_lookup(self@.identities[k as int])) == Ok::<
                Seq<char>,
                FailureView,
            >(url@),
    {
        proof {
            use_type_invariant(self);
        }
        if k < self.results.len() && self.results[k].is_none() {
            match &self.requests[k] {
                Some(url) => Some(url.clone()),
                None => None,
            }
        } else {
            None
        }
    }

    /// Delivers the reply to the request of slot `k`. An open slot is
    /// settled with the evaluation of the reply at the batch's reference
    /// time, and no other slot changes. A reply to a settled slot, or to no
    /// slot of the batch, is dropped: each identity is tried once.
    pub fn deliver(self, k: usize, reply: Reply) -> (after: Batch)
        ensures
            after@ == delivered(self@, k as int, reply@),
    {
        proof {
            use_type_invariant(&self);
        }
        if k < self.results.len() && self.results[k].is_none() {
            let Batch { now, identities, requests, mut results } = self;
            let result = evaluate(reply, &now);
            results.set(k, Some(result));
            let after = Batch { now, identities, requests, results };
            assert(after@.results =~= delivered(self@, k as int, reply@).results);
            after
        } else {
            self
        }
    }

    /// Whether every slot is settled.
    pub fn is_complete(&self) -> (done: bool)
        ensures
            done == complete(self@),
    {
        let mut k: usize = 0;
        while k < self.results.len()
            invariant
                k <= self.results@.len(),
                forall|j: int| 0 <= j < k ==> (#[trigger] self.results@[j]) is Some,
            decreases self.results.len() - k,
        {
            if self.results[k].is_none() {
                assert(self@.results[k as int] is None);
                return false;
            }
            k += 1;
        }
        true
    }

    /// Closes the batch. A complete batch gives its snapshot: one outcome
    /// for each identity, at the identity's configured position. A batch
    /// with an open slot gives none.
    pub fn finish(self) -> (snapshot: Option<Snapshot>)
        ensures
            snapshot is Some <==> complete(self@),
            snapshot matches Some(snapshot) ==> snapshot@ == snapshot_of(self@),
    {
        proof {
            use_type_invariant(&self);
        }
        let mut outcomes: Vec<ExpirationOutcome> = Vec::new();
        let mut k: usize = 0;
        while k < self.identities.len()
            invariant
                self.results@.len() == self.identities@.len(),
                k <= self.identities@.len(),
                outcomes@.len() == k,
                forall|j: int| 0 <= j < k ==> (#[trigger] self.results@[j]) is Some,
                forall|j: int|
                    0 <= j < k ==> (#[trigger] outcomes@[j])@ == snapshot_of(self@)[j],
            decreases self.identities.len() - k,
        {
            match &self.results[k] {
                None => {
                    assert(self@.results[k as int] is None);
                    return None;
                },
                Some(result) => {
                    outcomes.push(
                        ExpirationOutcome {
                            identity: self.identities[k].clone(),
                            result: result.clone(),
                        },
                    );
                },
            }
            k += 1;
        }
        let snapshot = Snapshot { outcomes };
        Some(snapshot)
    }
}

/// A reply on its way to a slot.
pub struct Delivery {
    pub slot: int,
    pub reply: ReplyView,
}

/// The batch after `deliveries` were delivered, the first of them first.
pub open spec fn delivered_all(batch: BatchView, deliveries: Seq<Delivery>) -> BatchView
    decreases deliveries.len(),
{
    if deliveries.len() == 0 {
        batch
    } else {
        delivered(
            delivered_all(batch, deliveries.drop_last()),
            deliveries.last().slot,
            deliveries.last().reply,
        )
    }
}

/// The reply that reaches `slot` first among `deliveries`.
pub open spec fn first_reply(deliveries: Seq<Delivery>, slot: int) -> Option<ReplyView>
    decreases deliveries.len(),
{
    if deliveries.len() == 0 {
        None
    } else {
        match first_reply(deliveries.drop_last(), slot) {
            Some(reply) => Some(reply),
            None => if deliveries.last().slot == slot {
                Some(deliveries.last().reply)
            } else {
                None
            },
        }
    }
}

/// What the slot of `identity` holds once `reply` has reached it, or with
/// no reply yet: the failure of the lookup where the identity has no lookup
/// URL, else the result of the reply, else nothing.
pub open spec fn settled(identity: Seq<char>, reply: Option<ReplyView>, now: int) -> Option<
    ResultView,
> {
    match located(wkd_lookup(identity)) {
        Err(failure) => Some(ResultView::Failed(failure.message())),
        Ok(_) => match reply {
            Some(reply) => Some(resolution(reply, now)),
            None => None,
        },
    }
}

/// Each slot is settled by its own identity and by the first reply that
/// reached it, and by nothing else: whatever was delivered, in whatever
/// order, the batch keeps its identities in their order, has one slot for
/// each, and slot `k` holds what identity `k` and its first reply give.
pub proof fn lemma_slots_settle_alone(
    identities: Seq<Seq<char>>,
    now: int,
    deliveries: Seq<Delivery>,
)
    ensures
        delivered_all(opened(identities, now), deliveries).now == now,
        delivered_all(opened(identities, now), deliveries).identities == identities,
        delivered_all(opened(identities, now), deliveries).results.len() == identities.len(),
        forall|k: int|
            0 <= k < identities.len() ==> #[trigger] delivered_all(
                opened(identities, now),
                deliveries,
            ).results[k] == settled(identities[k], first_reply(deliveries, k), now),
    decreases deliveries.len(),
{
    if deliveries.len() > 0 {
        lemma_slots_settle_alone(identities, now, deliveries.drop_last());
    }
}

/// A run ends: once every identity that has a lookup URL was reached by a
/// reply, the batch is complete, and its snapshot holds for each identity,
/// at the identity's position, what the identity and its first reply give.
pub proof fn lemma_run_ends_in_a_snapshot(
    identities: Seq<Seq<char>>,
    now: int,
    deliveries: Seq<Delivery>,
)
    requires
        forall|k: int|
            0 <= k < identities.len() && located(wkd_lookup(identities[k])) is Ok
                ==> (#[trigger] first_reply(deliveries, k)) is Some,
    ensures
        complete(delivered_all(opened(identities, now), deliveries)),
        snapshot_of(delivered_all(opened(identities, now), deliveries)).len() == identities.len(),
        forall|k: int|
            0 <= k < identities.len() ==> #[trigger] snapshot_of(
                delivered_all(opened(identities, now), deliveries),
            )[k] == (OutcomeView {
                identity: identities[k],
                result: settled(identities[k], first_reply(deliveries, k), now)->0,
            }),
{
    lemma_slots_settle_alone(identities, now, deliveries);
}

/// The order in which replies arrive does not show: two runs over the same
/// identities at the same reference time, in which each slot is first
/// reached by the same reply, end in the same batch, and so in the same
/// snapshot, with each outcome at the position of its identity.
pub proof fn lemma_arrival_order_is_irrelevant(
    identities: Seq<Seq<char>>,
    now: int,
    one: Seq<Delivery>,
    other: Seq<Delivery>,
)
    requires
        forall|k: int|
            0 <= k < identities.len() ==> first_reply(one, k) == first_reply(other, k),
    ensures
        delivered_all(opened(identities, now), one) == delivered_all(
            opened(identities, now),
            other,
        ),
        forall|k: int|
            0 <= k < identities.len() ==> (#[trigger] snapshot_of(
                delivered_all(opened(identities, now), one),
            )[k]).identity == identities[k],
{
    lemma_slots_settle_alone(identities, now, one);
    lemma_slots_settle_alone(identities, now, other);
    let a = delivered_all(opened(identities, now), one);
    let b = delivered_all(opened(identities, now), other);
    assert(a.results =~= b.results);
}

/// Two replies to different slots may be delivered in either order.
pub proof fn lemma_deliveries_commute(
    batch: BatchView,
    j: int,
    to_j: ReplyView,
    k: int,
    to_k: ReplyView,
)
    requires
        j != k,
    ensures
        delivered(delivered(batch, j, to_j), k, to_k) == delivered(
            delivered(batch, k, to_k),
            j,
            to_j,
        ),
{
    let one = delivered(delivered(batch, j, to_j), k, to_k);
    let other = delivered(delivered(batch, k, to_k), j, to_j);
    assert(one.results =~= other.results);
}

/// A failure stays in its slot. The snapshot has one entry for each
/// identity; the entry of an identity whose lookup or whose reply failed is
/// `Failed`; and every other entry is what it is in any run that differs
/// only in what reached slot `k`.
pub proof fn lemma_failure_stays_in_its_slot(
    identities: Seq<Seq<char>>,
    now: int,
    one: Seq<Delivery>,
    other: Seq<Delivery>,
    k: int,
)
    requires
        0 <= k < identities.len(),
        forall|i: int|
            0 <= i < identities.len() && i != k ==> first_reply(one, i) == first_reply(other, i),
    ensures
        snapshot_of(delivered_all(opened(identities, now), one)).len() == identities.len(),
        located(wkd_lookup(identities[k])) is Err || (first_reply(one, k) matches Some(reply)
            && retrieved(reply) is Err) ==> delivered_all(
            opened(identities, now),
            one,
        ).results[k] matches Some(ResultView::Failed(_)),
        forall|i: int|
            0 <= i < identities.len() && i != k ==> #[trigger] delivered_all(
                opened(identities, now),
                one,
            ).results[i] == delivered_all(opened(identities, now), other).results[i],
{
    lemma_slots_settle_alone(identities, now, one);
    lemma_slots_settle_alone(identities, now, other);
}

} // verus!
