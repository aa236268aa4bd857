//! Reading what an HTTP exchange with the service produced.

use crate::dse::response::ErrorResponse;
use crate::errors::{ErrorView, MarketDataError};
use crate::models::opt_text;
use crate::text::join;
use vstd::prelude::*;

verus! {

/// A reply of the service.
#[derive(Debug, PartialEq, Eq)]
pub struct HttpReply {
    /// The status code.
    pub status: u16,
    /// The status as it prints: the code and its reason phrase.
    pub status_text: String,
    /// The body; the error where it could not be read.
    pub body: Result<String, String>,
    /// The body decoded as an error payload, where it is one.
    pub error_body: Option<ErrorResponse>,
}

/// How an HTTP exchange ended.
#[derive(Debug, PartialEq, Eq)]
pub enum FetchOutcome {
    /// The request ran into its deadline.
    TimedOut,
    /// The request failed without a reply; the text says how.
    Failed(String),
    /// The service replied.
    Replied(HttpReply),
}

/// What the status of a reply says before its body is looked at.
#[derive(Clone, Copy, Debug, PartialEq, Eq, Structural)]
pub enum ReplyKind {
    /// Status 429: the quota is exhausted. The body does not matter.
    RateLimited,
    /// Status 401: the key is missing or wrong. The body does not matter.
    Unauthorized,
    /// Any other status outside 200 to 299: the body may say why.
    Failure,
    /// A status from 200 to 299: the body is the answer.
    Success,
}

/// The reply reports success: a status from 200 to 299.
pub open spec fn is_success(status: u16) -> bool {
    200 <= status <= 299
}

/// The kind of a reply with this status.
pub open spec fn kind_of_status(status: u16) -> ReplyKind {
    if status == 429 {
        ReplyKind::RateLimited
    } else if status == 401 {
        ReplyKind::Unauthorized
    } else if is_success(status) {
        ReplyKind::Success
    } else {
        ReplyKind::Failure
    }
}

/// Sorts a reply by its status, so that the body is read, and decoded as an
/// error payload, only where it matters.
pub fn classify_status(status: u16) -> (r: ReplyKind)
    ensures
        r == kind_of_status(status),
{
    if status == 429 {
        ReplyKind::RateLimited
    } else if status == 401 {
        ReplyKind::Unauthorized
    } else if 200 <= status && status <= 299 {
        ReplyKind::Success
    } else {
        ReplyKind::Failure
    }
}

/// The text of a body: empty where it could not be read.
pub open spec fn body_or_empty(body: Result<String, String>) -> Seq<char> {
    match body {
        Ok(text) => text@,
        Err(_) => Seq::empty(),
    }
}

/// The message that the error payload carries, where there is one.
pub open spec fn vendor_message(error_body: Option<ErrorResponse>) -> Option<Seq<char>> {
    match error_body {
        Some(payload) => opt_text(payload.error),
        None => None,
    }
}

/// A `ProviderError` of this provider.
pub open spec fn provider_error(message: Seq<char>) -> ErrorView {
    ErrorView::ProviderError { provider: "DSE"@, message }
}

/// What a reply amounts to.
///
/// Status 429 is a rate limit and 401 a bad key, whatever the body says. Any
/// other status outside 200 to 299 is a provider error, with the message of
/// the error payload where the body is one, and else with the status and the
/// body. A success is its body, or a provider error where the body could not
/// be read.
pub open spec fn reply_result(reply: HttpReply) -> Result<Seq<char>, ErrorView> {
    match kind_of_status(reply.status) {
        ReplyKind::RateLimited => Err(ErrorView::RateLimited { provider: "DSE"@ }),
        ReplyKind::Unauthorized => Err(provider_error("Invalid or missing API key"@)),
        ReplyKind::Failure => match vendor_message(reply.error_body) {
            Some(message) => Err(provider_error(message)),
            None => Err(
                provider_error(
                    "HTTP "@ + reply.status_text@ + " - "@ + body_or_empty(reply.body),
                ),
            ),
        },
        ReplyKind::Success => match reply.body {
            Ok(text) => Ok(text@),
            Err(detail) => Err(provider_error("Failed to read response: "@ + detail@)),
        },
    }
}

/// What an exchange amounts to: a deadline is a `Timeout`, a request that
/// failed without a reply a provider error, a reply what `reply_result`
/// says.
pub open spec fn fetch_result(outcome: FetchOutcome) -> Result<Seq<char>, ErrorView> {
    match outcome {
        FetchOutcome::TimedOut => Err(ErrorView::Timeout { provider: "DSE"@ }),
        FetchOutcome::Failed(detail) => Err(provider_error("Request failed: "@ + detail@)),
        FetchOutcome::Replied(reply) => reply_result(reply),
    }
}

/// The view of a body or of the error in its place.
pub open spec fn text_or_error(result: Result<String, MarketDataError>) -> Result<
    Seq<char>,
    ErrorView,
> {
    match result {
        Ok(text) => Ok(text@),
        Err(error) => Err(error@),
    }
}

fn dse_error(message: String) -> (r: MarketDataError)
    ensures
        r@ == provider_error(message@),
{
    MarketDataError::ProviderError { provider: "DSE".to_owned(), message }
}

/// Reads the outcome of an exchange: the body of a successful reply, or the
/// error that the outcome stands for.
pub fn interpret_fetch(outcome: FetchOutcome) -> (r: Result<String, MarketDataError>)
    ensures
        text_or_error(r) == fetch_result(outcome),
{
    match outcome {
        FetchOutcome::TimedOut => Err(MarketDataError::Timeout { provider: "DSE".to_owned() }),
        FetchOutcome::Failed(detail) => Err(dse_error(join("Request failed: ", detail.as_str()))),
        FetchOutcome::Replied(reply) => interpret_reply(reply),
    }
}

/// Reads a reply: its body where it reports success, else the error that
/// its status and body stand for.
pub fn interpret_reply(reply: HttpReply) -> (r: Result<String, MarketDataError>)
    ensures
        text_or_error(r) == reply_result(reply),
{
    match classify_status(reply.status) {
        ReplyKind::RateLimited => Err(MarketDataError::RateLimited { provider: "DSE".to_owned() }),
        ReplyKind::Unauthorized => Err(dse_error("Invalid or missing API key".to_owned())),
        ReplyKind::Failure => {
            if let Some(payload) = reply.error_body {
                if let Some(message) = payload.error {
                    return Err(dse_error(message));
                }
            }
            let mut message = join("HTTP ", reply.status_text.as_str());
            message.append(" - ");
            match &reply.body {
                Ok(text) => {
                    message.append(text.as_str());
                },
                Err(_) => {
                    assert(message@ + Seq::<char>::empty() =~= message@);
                },
            }
            Err(dse_error(message))
        },
        ReplyKind::Success => match reply.body {
            Ok(text) => Ok(text),
            Err(detail) => Err(dse_error(join("Failed to read response: ", detail.as_str()))),
        },
    }
}

} // verus!
