//! The steps at which the resolution of an identity can fail, and the
//! message each failure leaves.

use vstd::prelude::*;
use vstd::string::StringExecFns;

verus! {

/// The step of a resolution that failed.
#[derive(Clone, Copy, Debug, PartialEq, Eq, Structural)]
pub enum FailedStep {
    /// The email address could not be parsed.
    AddressUnparseable,
    /// No lookup URL could be built from the address.
    UrlUnbuildable,
    /// The request could not be sent.
    RequestFailed,
    /// The directory answered with a status outside 200 to 299.
    ServerError,
    /// The body of the reply could not be read.
    BodyUnreadable,
    /// The body of the reply is no credential.
    CredentialUnparseable,
}

/// What a message says of the step that failed.
pub open spec fn step_text(step: FailedStep) -> Seq<char> {
    match step {
        FailedStep::AddressUnparseable => "Failed to parse email address"@,
        FailedStep::UrlUnbuildable => "Failed to build wkd url"@,
        FailedStep::RequestFailed => "Failed to send GET request"@,
        FailedStep::ServerError => "WKD server returned error"@,
        FailedStep::BodyUnreadable => "Failed to get response"@,
        FailedStep::CredentialUnparseable => "Failed to parse certificate"@,
    }
}

/// The message of a failure at `step` with the given cause: a fixed opening,
/// then the step, then the cause.
pub open spec fn failure_text(step: FailedStep, cause: Seq<char>) -> Seq<char> {
    "Error: Failed to get certificate: "@ + step_text(step) + ": "@ + cause
}

impl FailedStep {
    /// What a message says of this step.
    pub fn text(&self) -> (text: &'static str)
        ensures
            text@ == step_text(*self),
    {
        match self {
            FailedStep::AddressUnparseable => "Failed to parse email address",
            FailedStep::UrlUnbuildable => "Failed to build wkd url",
            FailedStep::RequestFailed => "Failed to send GET request",
            FailedStep::ServerError => "WKD server returned error",
            FailedStep::BodyUnreadable => "Failed to get response",
            FailedStep::CredentialUnparseable => "Failed to parse certificate",
        }
    }
}

/// A resolution that failed: the step at which it did, and the cause as the
/// failing party worded it.
#[derive(Debug, PartialEq, Eq)]
pub struct Failure {
    pub step: FailedStep,
    pub cause: String,
}

/// A `Failure` as a mathematical value.
pub struct FailureView {
    pub step: FailedStep,
    pub cause: Seq<char>,
}

impl View for Failure {
    type V = FailureView;

    open spec fn view(&self) -> FailureView {
        FailureView { step: self.step, cause: self.cause@ }
    }
}

impl FailureView {
    /// The message of the failure.
    pub open spec fn message(self) -> Seq<char> {
        failure_text(self.step, self.cause)
    }
}

impl Failure {
    /// The message that the failure leaves in the outcome.
    pub fn message(&self) -> (message: String)
        ensures
            message@ == self@.message(),
    {
        failure_message(self.step, self.cause.as_str())
    }
}

/// The message that a failure at `step` leaves in the outcome.
pub fn failure_message(step: FailedStep, cause: &str) -> (message: String)
    ensures
        message@ == failure_text(step, cause@),
{
    let mut message = String::new();
    message.append("Error: Failed to get certificate: ");
    message.append(step.text());
    message.append(": ");
    message.append(cause);
    message
}

} // verus!
