//! The exchange with the generation service, seen from this side of it.
//!
//! The request is posted by the caller, once, and never repeated. What comes
//! back is judged here: a reply with a success status is handed on as raw
//! text, anything else is a transport error that carries what is known of it.

use vstd::prelude::*;

verus! {

/// Where requests are posted.
pub const ENDPOINT: &'static str = "https://api.openai.com/v1/responses";

/// The environment variable that may hold the credential.
pub const CREDENTIAL_VARIABLE: &'static str = "OPENAI_API_KEY";

/// How the exchange with the service went.
#[derive(Debug, Clone, PartialEq, Eq)]
pub enum Reply {
    /// No answer came back.
    Unreachable { reason: String },
    /// The service answered with this status and body.
    Answered { status: u16, body: String },
}

/// What a [`Reply`] holds, as mathematical values.
pub enum ReplyView {
    Unreachable { reason: Seq<char> },
    Answered { status: u16, body: Seq<char> },
}

impl View for Reply {
    type V = ReplyView;

    open spec fn view(&self) -> ReplyView {
        match *self {
            Reply::Unreachable { reason } => ReplyView::Unreachable { reason: reason@ },
            Reply::Answered { status, body } => ReplyView::Answered { status, body: body@ },
        }
    }
}

/// Why the exchange yielded no reply to read.
#[derive(Debug, Clone, PartialEq, Eq)]
pub enum TransportError {
    /// The service could not be reached.
    Unreachable { reason: String },
    /// The service answered with a status other than success.
    Status { status: u16, body: String },
}

/// What a [`TransportError`] holds, as mathematical values.
pub enum TransportErrorView {
    Unreachable { reason: Seq<char> },
    Status { status: u16, body: Seq<char> },
}

impl View for TransportError {
    type V = TransportErrorView;

    open spec fn view(&self) -> TransportErrorView {
        match *self {
            TransportError::Unreachable { reason } => TransportErrorView::Unreachable {
                reason: reason@,
            },
            TransportError::Status { status, body } => TransportErrorView::Status {
                status,
                body: body@,
            },
        }
    }
}

impl TransportErrorView {
    /// The stage of the exchange that failed.
    pub open spec fn headline_text(self) -> Seq<char> {
        match self {
            TransportErrorView::Unreachable { .. } => "Failed to send request to OpenAI"@,
            TransportErrorView::Status { .. } => "OpenAI API returned an error status"@,
        }
    }
}

impl TransportError {
    /// The first line of the diagnostic for this error.
    pub fn headline(&self) -> (text: &'static str)
        ensures
            text@ == self@.headline_text(),
    {
        match self {
            TransportError::Unreachable { .. } => "Failed to send request to OpenAI",
            TransportError::Status { .. } => "OpenAI API returned an error status",
        }
    }
}

/// Whether a status means success.
pub open spec fn is_success(status: u16) -> bool {
    200 <= status < 300
}

/// The raw reply that an exchange yields: the body of an answer with a
/// success status. Every other exchange is an error that keeps the status
/// and the body, or the reason why no answer came.
pub open spec fn reception(reply: ReplyView) -> Result<Seq<char>, TransportErrorView> {
    match reply {
        ReplyView::Unreachable { reason } => Err(TransportErrorView::Unreachable { reason }),
        ReplyView::Answered { status, body } => if is_success(status) {
            Ok(body)
        } else {
            Err(TransportErrorView::Status { status, body })
        },
    }
}

/// The outcome of [`receive`] as mathematical values.
pub open spec fn reception_view(outcome: Result<String, TransportError>) -> Result<
    Seq<char>,
    TransportErrorView,
> {
    match outcome {
        Ok(body) => Ok(body@),
        Err(e) => Err(e@),
    }
}

/// Judges how an exchange went and hands on the raw reply where there is one.
pub fn receive(reply: Reply) -> (outcome: Result<String, TransportError>)
    ensures
        reception_view(outcome) == reception(reply@),
{
    match reply {
        Reply::Unreachable { reason } => Err(TransportError::Unreachable { reason }),
        Reply::Answered { status, body } => {
            if 200 <= status && status < 300 {
                Ok(body)
            } else {
                Err(TransportError::Status { status, body })
            }
        },
    }
}

/// A raw reply is handed on for a success status and for no other, and a
/// failed exchange loses nothing of what came back.
pub proof fn law_only_success_is_read(reply: ReplyView)
    ensures
        reception(reply) is Ok <==> (reply matches ReplyView::Answered { status, .. }
            && is_success(status)),
        reply matches ReplyView::Answered { status, body } ==> (reception(reply) == Ok::<
            Seq<char>,
            TransportErrorView,
        >(body) || reception(reply) == Err::<Seq<char>, TransportErrorView>(
            TransportErrorView::Status { status, body },
        )),
{
}

} // verus!
