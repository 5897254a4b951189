//! The decisions of the command bus that talks to the browser extension:
//! which messages it answers, what a result resolves to, and how its
//! requests are named and end.
use vstd::prelude::*;

use crate::cookie_gateway::error::CookieGatewayError;
use crate::cookie_gateway::store::CookieData;
use crate::text::{decimal, owned, push_decimal, str_eq};

verus! {

/// A message from the extension, as far as the bus reads it.
#[derive(Debug)]
pub struct IncomingEnvelope {
    pub msg_type: Option<String>,
    pub request_id: Option<String>,
    pub ok: Option<bool>,
    pub cookies: Option<Vec<CookieData>>,
    pub error: Option<String>,
}

/// What the bus does with a message: answer a ping, resolve a pending
/// request, or nothing.
#[derive(Debug, Clone, Copy, PartialEq, Eq, Structural)]
pub enum IncomingAction {
    Pong,
    Resolve,
    Ignore,
}

/// What the bus does with a message of a given type.
pub open spec fn action_for(msg_type: Option<String>) -> IncomingAction {
    match msg_type {
        Some(t) => if t@ == "PING"@ {
            IncomingAction::Pong
        } else if t@ == "ACTION_RESULT"@ {
            IncomingAction::Resolve
        } else {
            IncomingAction::Ignore
        },
        None => IncomingAction::Ignore,
    }
}

/// What the bus does with a message.
pub fn classify_message(envelope: &IncomingEnvelope) -> (r: IncomingAction)
    ensures
        r == action_for(envelope.msg_type),
{
    match &envelope.msg_type {
        Some(t) => if str_eq(t.as_str(), "PING") {
            IncomingAction::Pong
        } else if str_eq(t.as_str(), "ACTION_RESULT") {
            IncomingAction::Resolve
        } else {
            IncomingAction::Ignore
        },
        None => IncomingAction::Ignore,
    }
}

/// The pending request an action result resolves and its outcome: the
/// cookies it carries (none where it carries none) when it succeeded, else
/// its error, or "extension action failed". A result without a request id
/// resolves nothing.
pub fn resolution(envelope: IncomingEnvelope) -> (r: Option<(String, Result<Vec<CookieData>, String>)>)
    ensures
        match envelope.request_id {
            Some(id) => if id@.len() == 0 {
                r is None
            } else {
                r matches Some(p) && p.0 == id && if envelope.ok == Some(true) {
                    p.1 matches Ok(c) && c@ == match envelope.cookies {
                        Some(cs) => cs@,
                        None => Seq::empty(),
                    }
                } else {
                    p.1 matches Err(m) && m@ == match envelope.error {
                        Some(e) => e@,
                        None => "extension action failed"@,
                    }
                }
            },
            None => r is None,
        },
{
    let request_id = match envelope.request_id {
        Some(id) => {
            if id.as_str().is_empty() {
                return None;
            }
            id
        },
        None => {
            return None;
        },
    };
    let ok = match envelope.ok {
        Some(b) => b,
        None => false,
    };
    if ok {
        let cookies = match envelope.cookies {
            Some(c) => c,
            None => Vec::new(),
        };
        Some((request_id, Ok(cookies)))
    } else {
        let reason = match envelope.error {
            Some(e) => e,
            None => owned("extension action failed"),
        };
        Some((request_id, Err(reason)))
    }
}

/// The id of the bus's request number `seq`.
pub fn request_id_for(seq: u64) -> (r: String)
    ensures
        r@ == "get-cookies-"@ + decimal(seq as nat),
{
    let mut r = owned("get-cookies-");
    push_decimal(&mut r, seq);
    r
}

/// How a request for cookies ended.
#[derive(Debug)]
pub enum CommandEnd {
    /// The extension answered.
    Answered(Result<Vec<CookieData>, String>),
    /// The answer channel closed without an answer.
    ChannelClosed,
    /// No answer came in time.
    TimedOut,
}

/// The outcome of a request for a domain's cookies with a timeout of
/// `timeout_ms`.
pub fn command_outcome(domain: &str, timeout_ms: u64, end: CommandEnd) -> (r: Result<
    Vec<CookieData>,
    CookieGatewayError,
>)
    ensures
        end matches CommandEnd::Answered(Ok(c)) ==> (r matches Ok(d) && d@ == c@),
        end matches CommandEnd::Answered(Err(m)) ==> (r matches Err(
            CookieGatewayError::ExtensionCommandFailed { message },
        ) && message == m),
        end is ChannelClosed ==> (r matches Err(CookieGatewayError::ExtensionCommandFailed { message })
            && message@ == "extension response channel closed"@),
        end is TimedOut ==> (r matches Err(CookieGatewayError::ExtensionCommandTimeout { domain: d, timeout_ms: t })
            && d@ == domain@ && t == timeout_ms),
{
    match end {
        CommandEnd::Answered(Ok(cookies)) => Ok(cookies),
        CommandEnd::Answered(Err(message)) => Err(CookieGatewayError::ExtensionCommandFailed { message }),
        CommandEnd::ChannelClosed => Err(
            CookieGatewayError::ExtensionCommandFailed {
                message: owned("extension response channel closed"),
            },
        ),
        CommandEnd::TimedOut => Err(
            CookieGatewayError::ExtensionCommandTimeout { domain: owned(domain), timeout_ms },
        ),
    }
}

} // verus!
