//! Where the credential of an identity is looked up, and what the
//! directory's reply yields.

use sequoia_net::wkd;
use vstd::prelude::*;
use vstd::string::StringExecFns;

use crate::failure::{FailedStep, Failure, FailureView};
use crate::text::{decimal, push_decimal};

verus! {

/// How many `@` an address holds.
pub open spec fn at_signs(email: Seq<char>) -> nat {
    email.filter(|c: char| c == '@').len()
}

/// What sequoia-net makes of an email address: the URL at which a Web Key
/// Directory of the advanced variant serves the address's key; the text of
/// the error for which no URL could be built from the address (inside
/// `Ok`); or the text of the error for which the address could not be
/// parsed (`Err`).
pub uninterp spec fn wkd_lookup(email: Seq<char>) -> Result<
    Result<Seq<char>, Seq<char>>,
    Seq<char>,
>;

/// A lookup as a mathematical value.
pub open spec fn wkd_view(found: Result<Result<String, String>, String>) -> Result<
    Result<Seq<char>, Seq<char>>,
    Seq<char>,
> {
    match found {
        Ok(Ok(url)) => Ok(Ok(url@)),
        Ok(Err(cause)) => Ok(Err(cause@)),
        Err(cause) => Err(cause@),
    }
}

/// Asks sequoia-net where the key of an address is looked up:
/// `wkd::Url::from` parses the address, and `wkd::Url::to_url` with
/// `wkd::Variant::Advanced` builds the URL, which is handed out as text.
///
/// The contract claims three things. The answer depends on the address and
/// on nothing else. `wkd::Url::from` fails exactly where the address does
/// not hold one `@` and no more: it splits the address at each `@` and
/// takes it where two parts come out. And its error then reads `Malformed
/// email address`, a space, and the address. Of the URL, and of the error of
/// `to_url`, nothing is claimed.
#[verifier::external_body]
fn wkd_advanced_url(email: &str) -> (found: Result<Result<String, String>, String>)
    ensures
        wkd_view(found) == wkd_lookup(email@),
        found is Err <==> at_signs(email@) != 1,
        found matches Err(cause) ==> cause@ == "Malformed email address "@ + email@,
{
    match wkd::Url::from(email) {
        Err(error) => Err(format!("{:#}", error)),
        Ok(address) => Ok(
            match address.to_url(wkd::Variant::Advanced) {
                Ok(url) => Ok(String::from(url)),
                Err(error) => Err(format!("{:#}", error)),
            },
        ),
    }
}

/// A lookup URL or the failure to derive one, as a mathematical value.
pub open spec fn located_view(url: Result<String, Failure>) -> Result<Seq<char>, FailureView> {
    match url {
        Ok(url) => Ok(url@),
        Err(failure) => Err(failure@),
    }
}

/// The lookup URL that a lookup gave, or the step that failed: parsing the
/// address, or building the URL.
pub open spec fn located(found: Result<Result<Seq<char>, Seq<char>>, Seq<char>>) -> Result<
    Seq<char>,
    FailureView,
> {
    match found {
        Ok(Ok(url)) => Ok(url),
        Ok(Err(cause)) => Err(FailureView { step: FailedStep::UrlUnbuildable, cause }),
        Err(cause) => Err(FailureView { step: FailedStep::AddressUnparseable, cause }),
    }
}

/// Turns what a lookup gave into the URL to fetch, or into the failure.
pub fn lookup_from(found: Result<Result<String, String>, String>) -> (url: Result<String, Failure>)
    ensures
        located_view(url) == located(wkd_view(found)),
{
    match found {
        Ok(Ok(url)) => Ok(url),
        Ok(Err(cause)) => Err(Failure { step: FailedStep::UrlUnbuildable, cause }),
        Err(cause) => Err(Failure { step: FailedStep::AddressUnparseable, cause }),
    }
}

/// Derives the URL at which the credential of `email` is looked up. An
/// address is rejected as unparseable exactly where it does not hold one
/// `@` and no more, with a cause that repeats it. Any other address gives
/// its URL, or the failure to build one.
pub fn lookup_url(email: &str) -> (url: Result<String, Failure>)
    ensures
        located_view(url) == located(wkd_lookup(email@)),
        (url matches Err(failure) && failure.step == FailedStep::AddressUnparseable) <==> at_signs(
            email@,
        ) != 1,
        url matches Err(failure) ==> failure.step == FailedStep::AddressUnparseable || failure.step
            == FailedStep::UrlUnbuildable,
        at_signs(email@) != 1 ==> (url matches Err(failure) && failure.cause@
            == "Malformed email address "@ + email@),
{
    lookup_from(wkd_advanced_url(email))
}

/// What came back from the directory for one request.
#[derive(Debug, PartialEq, Eq)]
pub enum Reply {
    /// The request could not be sent; the cause.
    Unsent(String),
    /// The directory answered with this status; the body, or the cause for
    /// which it could not be read.
    Answered { status: u16, body: Result<Vec<u8>, String> },
}

/// A `Reply` as a mathematical value.
pub enum ReplyView {
    Unsent(Seq<char>),
    Answered { status: int, body: Result<Seq<u8>, Seq<char>> },
}

impl View for Reply {
    type V = ReplyView;

    open spec fn view(&self) -> ReplyView {
        match self {
            Reply::Unsent(cause) => ReplyView::Unsent(cause@),
            Reply::Answered { status, body } => ReplyView::Answered {
                status: *status as int,
                body: match body {
                    Ok(bytes) => Ok(bytes@),
                    Err(cause) => Err(cause@),
                },
            },
        }
    }
}

/// The statuses with which a directory hands out a credential: 200 to 299.
pub open spec fn status_accepted(status: int) -> bool {
    200 <= status <= 299
}

/// The bytes of the credential that a reply carries, or the step that
/// failed: sending the request, the status of the answer, or reading its
/// body, in this order.
pub open spec fn retrieved(reply: ReplyView) -> Result<Seq<u8>, FailureView> {
    match reply {
        ReplyView::Unsent(cause) => Err(FailureView { step: FailedStep::RequestFailed, cause }),
        ReplyView::Answered { status, body } => if !status_accepted(status) {
            Err(
                FailureView {
                    step: FailedStep::ServerError,
                    cause: "HTTP status "@ + decimal(status),
                },
            )
        } else {
            match body {
                Ok(bytes) => Ok(bytes),
                Err(cause) => Err(FailureView { step: FailedStep::BodyUnreadable, cause }),
            }
        },
    }
}

/// Bytes or a failure, as a mathematical value.
pub open spec fn retrieved_view(credential: Result<Vec<u8>, Failure>) -> Result<
    Seq<u8>,
    FailureView,
> {
    match credential {
        Ok(bytes) => Ok(bytes@),
        Err(failure) => Err(failure@),
    }
}

/// Takes the credential out of a reply. A request that was not sent, a
/// status outside 200 to 299 and a body that could not be read each give
/// the failure of that step; the status is looked at before the body.
pub fn credential_of(reply: Reply) -> (credential: Result<Vec<u8>, Failure>)
    ensures
        retrieved_view(credential) == retrieved(reply@),
{
    match reply {
        Reply::Unsent(cause) => Err(Failure { step: FailedStep::RequestFailed, cause }),
        Reply::Answered { status, body } => {
            if status < 200 || status > 299 {
                let mut cause = String::new();
                cause.append("HTTP status ");
                push_decimal(&mut cause, status as i64);
                Err(Failure { step: FailedStep::ServerError, cause })
            } else {
                match body {
                    Ok(bytes) => Ok(bytes),
                    Err(cause) => Err(Failure { step: FailedStep::BodyUnreadable, cause }),
                }
            }
        },
    }
}

} // verus!
