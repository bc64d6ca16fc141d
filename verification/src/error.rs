//! The one failure that leaves the client, and the policy that says which
//! failures are worth another attempt.

use vstd::prelude::*;
use vstd::string::*;

verus! {

/// What went wrong.
#[derive(Clone, Copy, Debug, PartialEq, Eq, Structural)]
pub enum Cause {
    /// The configured namespace is not hexadecimal text.
    NamespaceNotHex,
    /// The configured namespace names no version-0 namespace.
    NamespaceInvalid,
    /// The network's rules refuse the payload as a blob.
    BlobRefused,
    /// The submission could not be prepared and signed.
    SigningFailed,
    /// The network did not take the submission.
    SubmissionFailed,
    /// The inclusion service could not be told of a new blob.
    RegistrationFailed,
    /// A blob identifier is not the text that a dispatch hands out.
    BlobIdMalformed,
    /// The inclusion service did not answer.
    InclusionQueryFailed,
    /// The inclusion service reported a finished proof and sent none.
    ProofMissing,
    /// The balance could not be read.
    BalanceQueryFailed,
    /// An event arrived that the exchange was not waiting for.
    OutOfTurn,
}

/// A failure as callers see it: its cause, what the other side said of it, and
/// whether the same call may succeed when made again.
#[derive(Clone, Debug, PartialEq, Eq)]
pub struct DAError {
    pub cause: Cause,
    pub detail: String,
    pub is_retriable: bool,
}

/// A failure over mathematical text.
pub struct DAErrorView {
    pub cause: Cause,
    pub detail: Seq<char>,
    pub is_retriable: bool,
}

impl View for DAError {
    type V = DAErrorView;

    open spec fn view(&self) -> DAErrorView {
        DAErrorView { cause: self.cause, detail: self.detail@, is_retriable: self.is_retriable }
    }
}

/// The policy: only a failure to reach the inclusion service is transient.
/// A failed submission is final too, as the network may have taken the blob.
pub open spec fn worth_retrying(cause: Cause) -> bool {
    cause == Cause::RegistrationFailed || cause == Cause::InclusionQueryFailed
}

/// The failure that the policy makes of a cause.
pub open spec fn failure(cause: Cause, detail: Seq<char>) -> DAErrorView {
    DAErrorView { cause, detail, is_retriable: worth_retrying(cause) }
}

/// A failure that another attempt may cure.
pub fn to_retriable_da_error(cause: Cause, detail: String) -> (e: DAError)
    ensures
        e@ == (DAErrorView { cause, detail: detail@, is_retriable: true }),
{
    DAError { cause, detail, is_retriable: true }
}

/// A failure that stands until its cause is mended.
pub fn to_non_retriable_da_error(cause: Cause, detail: String) -> (e: DAError)
    ensures
        e@ == (DAErrorView { cause, detail: detail@, is_retriable: false }),
{
    DAError { cause, detail, is_retriable: false }
}

/// Classifies a cause by the policy.
pub fn classify(cause: Cause, detail: String) -> (e: DAError)
    ensures
        e@ == failure(cause, detail@),
{
    match cause {
        Cause::RegistrationFailed | Cause::InclusionQueryFailed => to_retriable_da_error(
            cause,
            detail,
        ),
        _ => to_non_retriable_da_error(cause, detail),
    }
}

/// What each cause reads as.
pub open spec fn cause_text(cause: Cause) -> Seq<char> {
    match cause {
        Cause::NamespaceNotHex => "the configured namespace is not hexadecimal"@,
        Cause::NamespaceInvalid => "the configured namespace is not a version 0 namespace"@,
        Cause::BlobRefused => "the payload cannot form a blob"@,
        Cause::SigningFailed => "the submission could not be prepared"@,
        Cause::SubmissionFailed => "the submission was not accepted"@,
        Cause::RegistrationFailed => "the blob could not be registered for proving"@,
        Cause::BlobIdMalformed => "the blob id is malformed"@,
        Cause::InclusionQueryFailed => "the inclusion service did not answer"@,
        Cause::ProofMissing => "Complete status should be accompanied by a Proof, eq-service is broken"@,
        Cause::BalanceQueryFailed => "the balance could not be read"@,
        Cause::OutOfTurn => "the event does not belong to this step of the exchange"@,
    }
}

/// A failure's message: what its cause reads as, then, after a colon, the
/// detail where there is any.
pub open spec fn message_text(e: DAErrorView) -> Seq<char> {
    if e.detail.len() == 0 {
        cause_text(e.cause)
    } else {
        cause_text(e.cause) + ": "@ + e.detail
    }
}

impl DAError {
    /// The message of this failure.
    pub fn message(&self) -> (text: String)
        ensures
            text@ == message_text(self@),
    {
        let head = match self.cause {
            Cause::NamespaceNotHex => "the configured namespace is not hexadecimal",
            Cause::NamespaceInvalid => "the configured namespace is not a version 0 namespace",
            Cause::BlobRefused => "the payload cannot form a blob",
            Cause::SigningFailed => "the submission could not be prepared",
            Cause::SubmissionFailed => "the submission was not accepted",
            Cause::RegistrationFailed => "the blob could not be registered for proving",
            Cause::BlobIdMalformed => "the blob id is malformed",
            Cause::InclusionQueryFailed => "the inclusion service did not answer",
            Cause::ProofMissing => "Complete status should be accompanied by a Proof, eq-service is broken",
            Cause::BalanceQueryFailed => "the balance could not be read",
            Cause::OutOfTurn => "the event does not belong to this step of the exchange",
        };
        let mut text = String::from_str(head);
        if !self.detail.as_str().is_empty() {
            text.append(": ");
            text.append(self.detail.as_str());
        }
        text
    }
}

} // verus!
