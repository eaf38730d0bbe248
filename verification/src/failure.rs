//! The ways in which a run can fail, and the text that reports each.

use vstd::prelude::*;

verus! {

/// The stage of a run at which it failed.
#[derive(Clone, Copy, Debug, PartialEq, Eq, Structural)]
pub enum FailureKind {
    /// A setting given by the user is not acceptable.
    Configuration,
    /// No access key could be obtained.
    CredentialUnavailable,
    /// The observation request did not yield a usable reply.
    FetchFailed,
    /// The payload does not have the shape of an observation response.
    ConversionFailed,
    /// The record could not be rendered as text.
    SerializationFailed,
}

/// A failed run: the stage that failed and what is known of the cause.
#[derive(Debug, PartialEq, Eq)]
pub struct Failure {
    pub kind: FailureKind,
    /// Free text on the cause; empty where nothing more is known.
    pub detail: String,
}

impl FailureKind {
    /// The fixed text that opens every report of a failure of this kind.
    pub open spec fn headline_spec(self) -> Seq<char> {
        match self {
            FailureKind::Configuration =>
                "Invalid Unit value, options are 'm' for metric and 'e' for imperial."@,
            FailureKind::CredentialUnavailable => "couldn't fetch api key"@,
            FailureKind::FetchFailed => "couldn't fetch observation"@,
            FailureKind::ConversionFailed => "couldn't parse response"@,
            FailureKind::SerializationFailed => "couldn't format observations"@,
        }
    }

    /// The fixed text that opens every report of a failure of this kind.
    pub fn headline(self) -> (text: &'static str)
        ensures
            text@ == self.headline_spec(),
    {
        match self {
            FailureKind::Configuration =>
                "Invalid Unit value, options are 'm' for metric and 'e' for imperial.",
            FailureKind::CredentialUnavailable => "couldn't fetch api key",
            FailureKind::FetchFailed => "couldn't fetch observation",
            FailureKind::ConversionFailed => "couldn't parse response",
            FailureKind::SerializationFailed => "couldn't format observations",
        }
    }
}

/// A failure as contracts speak of it.
pub struct FailureView {
    pub kind: FailureKind,
    pub detail: Seq<char>,
}

impl FailureView {
    /// The report of the failure: the headline of its kind, followed by a
    /// colon, a space and the detail where there is one.
    pub open spec fn message(self) -> Seq<char> {
        if self.detail.len() == 0 {
            self.kind.headline_spec()
        } else {
            self.kind.headline_spec() + ": "@ + self.detail
        }
    }
}

impl View for Failure {
    type V = FailureView;

    open spec fn view(&self) -> FailureView {
        FailureView { kind: self.kind, detail: self.detail@ }
    }
}

impl Failure {
    /// A failure of `kind` of which nothing more is known.
    pub fn bare(kind: FailureKind) -> (failure: Failure)
        ensures
            failure@ == (FailureView { kind, detail: Seq::<char>::empty() }),
    {
        Failure { kind, detail: String::new() }
    }

    /// A failure of `kind` with a detail.
    pub fn with_detail(kind: FailureKind, detail: &str) -> (failure: Failure)
        ensures
            failure@ == (FailureView { kind, detail: detail@ }),
    {
        Failure { kind, detail: String::from_str(detail) }
    }

    /// The text that reports this failure.
    pub fn message(&self) -> (text: String)
        ensures
            text@ == self@.message(),
    {
        let mut text = String::from_str(self.kind.headline());
        if self.detail.as_str().unicode_len() > 0 {
            text.append(": ");
            text.append(self.detail.as_str());
        }
        text
    }
}

/// Every report opens with the headline of its kind.
pub proof fn lemma_message_opens_with_headline(failure: FailureView, i: int)
    requires
        0 <= i < failure.kind.headline_spec().len(),
    ensures
        failure.message().len() >= failure.kind.headline_spec().len(),
        failure.message()[i] == failure.kind.headline_spec()[i],
{
}

/// Failures of different kinds are told apart by their reports, whatever the
/// details say.
pub proof fn lemma_reports_tell_kinds_apart(first: FailureView, second: FailureView)
    requires
        first.kind != second.kind,
    ensures
        first.message() != second.message(),
{
    reveal_strlit("Invalid Unit value, options are 'm' for metric and 'e' for imperial.");
    reveal_strlit("couldn't fetch api key");
    reveal_strlit("couldn't fetch observation");
    reveal_strlit("couldn't parse response");
    reveal_strlit("couldn't format observations");
    lemma_message_opens_with_headline(first, 0);
    lemma_message_opens_with_headline(first, 9);
    lemma_message_opens_with_headline(first, 10);
    lemma_message_opens_with_headline(first, 15);
    lemma_message_opens_with_headline(second, 0);
    lemma_message_opens_with_headline(second, 9);
    lemma_message_opens_with_headline(second, 10);
    lemma_message_opens_with_headline(second, 15);
}

} // verus!
