//! From a credential to the days left before its soonest key expiration.

use chrono::{DateTime, Utc};
use sequoia_openpgp::cert::Cert;
use sequoia_openpgp::parse::Parse;
use sequoia_openpgp::policy::StandardPolicy;
use vstd::prelude::*;

use crate::directory::{credential_of, retrieved, Reply, ReplyView};
use crate::failure::{failure_message, failure_text, FailedStep};
use crate::outcome::{ExpirationResult, ResultView};
use crate::time::{whole_days, whole_days_until, ReferenceTime, Timestamp};

verus! {

/// The expiration times of a credential's keys as mathematical values: for
/// each key the nanoseconds from the Unix epoch to its expiration, where it
/// has one.
pub open spec fn expirations_view(expirations: Seq<Option<Timestamp>>) -> Seq<Option<int>> {
    Seq::new(
        expirations.len(),
        |i: int|
            match expirations[i] {
                Some(at) => Some(at@),
                None => None,
            },
    )
}

/// The least count of whole days from `now` to an expiration in
/// `expirations`; `None` where no key expires.
pub open spec fn soonest_days(expirations: Seq<Option<int>>, now: int) -> Option<int>
    decreases expirations.len(),
{
    if expirations.len() == 0 {
        None
    } else {
        let before = soonest_days(expirations.drop_last(), now);
        match expirations.last() {
            None => before,
            Some(at) => match before {
                Some(least) => if least <= whole_days(at, now) {
                    Some(least)
                } else {
                    Some(whole_days(at, now))
                },
                None => Some(whole_days(at, now)),
            },
        }
    }
}

/// `soonest_days` is the minimum it is named after: it is `None` exactly
/// where no key expires, and otherwise the day count of one of the keys,
/// which no other key's count lies below.
pub proof fn lemma_soonest_is_least(expirations: Seq<Option<int>>, now: int)
    ensures
        soonest_days(expirations, now) is None <==> forall|i: int|
            0 <= i < expirations.len() ==> expirations[i] is None,
        soonest_days(expirations, now) matches Some(least) ==> {
            &&& exists|i: int|
                0 <= i < expirations.len() && expirations[i] is Some && whole_days(
                    expirations[i]->0,
                    now,
                ) == least
            &&& forall|i: int|
                0 <= i < expirations.len() && expirations[i] is Some ==> least <= whole_days(
                    expirations[i]->0,
                    now,
                )
        },
    decreases expirations.len(),
{
    if expirations.len() > 0 {
        let front = expirations.drop_last();
        lemma_soonest_is_least(front, now);
        assert forall|i: int| 0 <= i < front.len() implies front[i] == expirations[i] by {}
    }
}

/// The soonest expiration among `expirations`, in whole days from `now`;
/// `None` where no key expires.
pub fn soonest_expiration(expirations: &Vec<Option<Timestamp>>, now: &ReferenceTime) -> (soonest:
    Option<i64>)
    ensures
        soonest is Some <==> soonest_days(expirations_view(expirations@), now@) is Some,
        soonest matches Some(days) ==> soonest_days(expirations_view(expirations@), now@) == Some(
            days as int,
        ),
{
    let ghost all = expirations_view(expirations@);
    let mut soonest: Option<i64> = None;
    let mut k: usize = 0;
    while k < expirations.len()
        invariant
            k <= expirations.len(),
            all == expirations_view(expirations@),
            soonest is Some <==> soonest_days(all.take(k as int), now@) is Some,
            soonest matches Some(days) ==> soonest_days(all.take(k as int), now@) == Some(
                days as int,
            ),
        decreases expirations.len() - k,
    {
        assert(all.take(k + 1).drop_last() =~= all.take(k as int));
        match &expirations[k] {
            Some(at) => {
                let days: i64 = whole_days_until(at, now);
                soonest =
                match soonest {
                    Some(least) => if least <= days {
                        Some(least)
                    } else {
                        Some(days)
                    },
                    None => Some(days),
                };
            },
            None => {},
        }
        k += 1;
    }
    assert(all.take(k as int) =~= all);
    soonest
}

/// What the keys of a credential look like to the evaluation: the expiration
/// times found, or the cause for which the credential could not be read.
pub open spec fn keys_view(keys: Result<Vec<Option<Timestamp>>, String>) -> Result<
    Seq<Option<int>>,
    Seq<char>,
> {
    match keys {
        Ok(expirations) => Ok(expirations_view(expirations@)),
        Err(cause) => Err(cause@),
    }
}

/// The result for a credential whose keys were read as `keys`: a failure
/// where the credential could not be parsed, the soonest expiration in whole
/// days from `now` where a key expires, and `NoExpiration` where none does.
pub open spec fn evaluation(keys: Result<Seq<Option<int>>, Seq<char>>, now: int) -> ResultView {
    match keys {
        Err(cause) => ResultView::Failed(failure_text(FailedStep::CredentialUnparseable, cause)),
        Ok(expirations) => match soonest_days(expirations, now) {
            Some(days) => ResultView::Days(days),
            None => ResultView::NoExpiration,
        },
    }
}

/// Reduces what was read from a credential to the result for its identity.
pub fn evaluate_keys(keys: Result<Vec<Option<Timestamp>>, String>, now: &ReferenceTime) -> (result:
    ExpirationResult)
    ensures
        result@ == evaluation(keys_view(keys), now@),
{
    match keys {
        Err(cause) => ExpirationResult::Failed(
            failure_message(FailedStep::CredentialUnparseable, cause.as_str()),
        ),
        Ok(expirations) => match soonest_expiration(&expirations, now) {
            Some(days) => ExpirationResult::Days(days),
            None => ExpirationResult::NoExpiration,
        },
    }
}

/// What sequoia reads from the bytes of a credential at the instant `at`
/// (nanoseconds since the Unix epoch): for each key that the standard policy
/// of that instant accepts at that instant and that is not revoked, in the
/// order of the certificate, the key's expiration time in nanoseconds since
/// the Unix epoch, or nothing where the key does not expire; or else the text
/// of the error for which the bytes did not parse.
pub uninterp spec fn credential_keys(credential: Seq<u8>, at: int) -> Result<
    Seq<Option<int>>,
    Seq<char>,
>;

/// Reads the keys of a credential with sequoia. `Cert::from_bytes` parses
/// the bytes; where it fails, the answer is the text of its error.
/// `Cert::keys` walks the keys, `with_policy` keeps those that are valid at
/// the instant `at` under `StandardPolicy::at` that instant, and
/// `revoked(false)` drops those that are revoked. Of each key that is left,
/// `key_expiration_time` is handed out through chrono's
/// `DateTime::<Utc>::from`, as its `timestamp` and `timestamp_subsec_nanos`.
/// The instant is handed in as the `SystemTime` that lies `at.secs` seconds
/// and `at.nanos` nanoseconds after `UNIX_EPOCH`.
///
/// The contract claims one thing: the answer depends on the bytes and on
/// the instant, and on nothing else. What the answer is, is left to sequoia.
#[verifier::external_body]
fn read_key_expirations(credential: &[u8], at: &ReferenceTime) -> (keys: Result<
    Vec<Option<Timestamp>>,
    String,
>)
    ensures
        keys_view(keys) == credential_keys(credential@, at@),
{
    let cert = match Cert::from_bytes(credential) {
        Ok(cert) => cert,
        Err(error) => return Err(format!("{:#}", error)),
    };
    let at = std::time::UNIX_EPOCH + std::time::Duration::new(at.secs.into(), at.nanos);
    let policy = StandardPolicy::at(at);
    let keys = cert.keys().with_policy(&policy, at).revoked(false);
    let expirations = keys.map(|key| key.key_expiration_time().map(DateTime::<Utc>::from));
    let parts = |at: DateTime<Utc>| (at.timestamp(), at.timestamp_subsec_nanos());
    let stamp = |(secs, nanos)| Timestamp { secs, nanos };
    Ok(expirations.map(|at| at.map(parts).map(stamp)).collect())
}

/// Evaluates the bytes of a credential at the reference time `now`: the
/// days until the soonest expiration among the keys that are eligible at
/// `now`, `NoExpiration` where none of them expires, and a failure where
/// the bytes are no credential.
pub fn get_days_to_expiration(credential: &[u8], now: &ReferenceTime) -> (result: ExpirationResult)
    ensures
        result@ == evaluation(credential_keys(credential@, now@), now@),
{
    evaluate_keys(read_key_expirations(credential, now), now)
}

/// The result that a directory's reply gives at the instant `now`: the
/// failure that kept the credential from arriving, or else the evaluation of
/// the credential that arrived.
pub open spec fn resolution(reply: ReplyView, now: int) -> ResultView {
    match retrieved(reply) {
        Err(failure) => ResultView::Failed(failure.message()),
        Ok(credential) => evaluation(credential_keys(credential, now), now),
    }
}

/// Evaluates one identity from the reply to its lookup. A failure to send,
/// an error status, an unreadable body and an unparseable credential each
/// end in `Failed` with the message of that step; a credential that parses
/// ends in the days to its soonest expiration, or in `NoExpiration`.
pub fn evaluate(reply: Reply, now: &ReferenceTime) -> (result: ExpirationResult)
    ensures
        result@ == resolution(reply@, now@),
{
    match credential_of(reply) {
        Err(failure) => ExpirationResult::Failed(failure.message()),
        Ok(credential) => get_days_to_expiration(credential.as_slice(), now),
    }
}

} // verus!
