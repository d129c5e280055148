//! Classification of what a delivery attempt to the sink came to.

use vstd::prelude::*;

verus! {

/// The ways in which the sink client reports that a delivery went wrong.
#[derive(Clone, Copy, Debug, PartialEq, Eq, Structural)]
pub enum SinkError {
    /// The webhook carries no token to authenticate with.
    Model,
    /// The HTTP exchange failed or the remote end refused the request.
    Http,
    /// The reply could not be read as JSON.
    Json,
    /// Any other failure.
    Other,
}

/// The closed set of failure kinds that a delivery can end in.
#[derive(Clone, Copy, Debug, PartialEq, Eq, Structural)]
pub enum FailureKind {
    /// The credential was rejected.
    AuthInvalid,
    /// The request or the table it was sent to violated the remote schema.
    PayloadMalformed,
    /// The reply could not be parsed.
    ResponseUndecodable,
    /// Any other failure.
    Unclassified,
}

/// What one delivery attempt came to. `M` is the handle of a delivered
/// message, which the sink returns only when the caller waited for it.
#[derive(Debug)]
pub enum DeliveryOutcome<M> {
    Success(Option<M>),
    Failure(FailureKind),
}

/// The failure kind that each sink error stands for.
pub open spec fn classify_spec(error: SinkError) -> FailureKind {
    match error {
        SinkError::Model => FailureKind::AuthInvalid,
        SinkError::Http => FailureKind::PayloadMalformed,
        SinkError::Json => FailureKind::ResponseUndecodable,
        SinkError::Other => FailureKind::Unclassified,
    }
}

/// Maps a sink error to its failure kind.
pub fn classify(error: SinkError) -> (kind: FailureKind)
    ensures
        kind == classify_spec(error),
{
    match error {
        SinkError::Model => FailureKind::AuthInvalid,
        SinkError::Http => FailureKind::PayloadMalformed,
        SinkError::Json => FailureKind::ResponseUndecodable,
        SinkError::Other => FailureKind::Unclassified,
    }
}

impl FailureKind {
    /// The fixed text that is logged locally for this kind of failure.
    pub open spec fn diagnostic_text(self) -> Seq<char> {
        match self {
            FailureKind::AuthInvalid => "Token is reportedly none?"@,
            FailureKind::PayloadMalformed =>
                "Content is malformed, or the webhook's token is invalid."@,
            FailureKind::ResponseUndecodable => "Received invalid json!"@,
            FailureKind::Unclassified =>
                "Error: Other. Reportedly, this should never happen, according to serenity?"@,
        }
    }

    /// The diagnostic message of this kind.
    pub fn diagnostic(&self) -> (text: &'static str)
        ensures
            text@ == self.diagnostic_text(),
    {
        match self {
            FailureKind::AuthInvalid => "Token is reportedly none?",
            FailureKind::PayloadMalformed =>
                "Content is malformed, or the webhook's token is invalid.",
            FailureKind::ResponseUndecodable => "Received invalid json!",
            FailureKind::Unclassified =>
                "Error: Other. Reportedly, this should never happen, according to serenity?",
        }
    }
}

impl<M> DeliveryOutcome<M> {
    /// The outcome that a sink client's result stands for.
    pub open spec fn of_spec(result: Result<Option<M>, SinkError>) -> Self {
        match result {
            Ok(handle) => DeliveryOutcome::Success(handle),
            Err(error) => DeliveryOutcome::Failure(classify_spec(error)),
        }
    }

    /// The message handle that is left of an outcome: that of a success,
    /// nothing of a failure.
    pub open spec fn handle_spec(self) -> Option<M> {
        match self {
            DeliveryOutcome::Success(handle) => handle,
            DeliveryOutcome::Failure(_) => None,
        }
    }

    /// The diagnostic that an outcome asks to be logged: that of its failure
    /// kind, nothing for a success.
    pub open spec fn diagnostic_spec(self) -> Option<Seq<char>> {
        match self {
            DeliveryOutcome::Success(_) => None,
            DeliveryOutcome::Failure(kind) => Some(kind.diagnostic_text()),
        }
    }

    /// Classifies the result of one call of the sink client.
    pub fn of(result: Result<Option<M>, SinkError>) -> (outcome: Self)
        ensures
            outcome == Self::of_spec(result),
    {
        match result {
            Ok(handle) => DeliveryOutcome::Success(handle),
            Err(error) => DeliveryOutcome::Failure(classify(error)),
        }
    }

    /// The diagnostic to log for this outcome, if it is a failure.
    pub fn diagnostic(&self) -> (text: Option<&'static str>)
        ensures
            text is Some == self.diagnostic_spec() is Some,
            text matches Some(t) ==> Some(t@) == self.diagnostic_spec(),
    {
        match self {
            DeliveryOutcome::Success(_) => None,
            DeliveryOutcome::Failure(kind) => Some(kind.diagnostic()),
        }
    }

    /// Gives up the outcome for the message handle it carries. A failure of
    /// any kind leaves no handle and is not passed on.
    pub fn into_handle(self) -> (handle: Option<M>)
        ensures
            handle == self.handle_spec(),
    {
        match self {
            DeliveryOutcome::Success(handle) => handle,
            DeliveryOutcome::Failure(_) => None,
        }
    }
}

/// A failed delivery is contained, whatever its kind.
///
/// Every error of the sink client is classified as one of the four kinds,
/// asks for the diagnostic of that kind, and leaves no message handle: the
/// caller of a delivery sees a failure as a delivery without a handle and
/// as nothing else.
pub proof fn law_every_failure_is_contained<M>(error: SinkError)
    ensures
        DeliveryOutcome::<M>::of_spec(Err(error)) == DeliveryOutcome::<M>::Failure(
            classify_spec(error),
        ),
        DeliveryOutcome::<M>::of_spec(Err(error)).handle_spec() is None,
        DeliveryOutcome::<M>::of_spec(Err(error)).diagnostic_spec() == Some(
            classify_spec(error).diagnostic_text(),
        ),
{
}

} // verus!
