//! The errors of the cookie gateway, their messages, and the HTTP answers
//! they become.
use vstd::prelude::*;

use crate::text::{decimal, push_decimal, push_str, owned};

verus! {

/// Why a gateway request failed.
#[derive(Debug, PartialEq, Eq)]
pub enum CookieGatewayError {
    DomainNotWhitelisted { domain: String },
    UserNotOptedIn,
    InvalidUrl { url: String },
    InvalidDomain { domain: String },
    NoCookiesFound { domain: String },
    ExtensionClientUnavailable,
    ExtensionCommandTimeout { domain: String, timeout_ms: u64 },
    ExtensionCommandFailed { message: String },
    HttpRequestFailed { message: String },
    ResponseParseError { message: String },
}

/// The message of an error.
pub open spec fn error_message(e: CookieGatewayError) -> Seq<char> {
    match e {
        CookieGatewayError::DomainNotWhitelisted { domain } => "Domain not whitelisted: "@ + domain@,
        CookieGatewayError::UserNotOptedIn => "User has not opted in"@,
        CookieGatewayError::InvalidUrl { url } => "Invalid URL format: "@ + url@,
        CookieGatewayError::InvalidDomain { domain } => "Invalid domain: "@ + domain@,
        CookieGatewayError::NoCookiesFound { domain } => "No cookies found for domain: "@ + domain@,
        CookieGatewayError::ExtensionClientUnavailable => "No active extension client is connected"@,
        CookieGatewayError::ExtensionCommandTimeout { domain, timeout_ms } =>
            "Extension command timed out for domain '"@ + domain@ + "' after "@ + decimal(
            timeout_ms as nat,
        ) + "ms"@,
        CookieGatewayError::ExtensionCommandFailed { message } => "Extension command failed: "@
            + message@,
        CookieGatewayError::HttpRequestFailed { message } => "HTTP request failed: "@ + message@,
        CookieGatewayError::ResponseParseError { message } => "Failed to parse response: "@ + message@,
    }
}

/// The HTTP status and error message an error is answered with.
pub open spec fn error_response(e: CookieGatewayError) -> (u16, Seq<char>) {
    match e {
        CookieGatewayError::DomainNotWhitelisted { domain } => (
            403,
            "Domain '"@ + domain@ + "' is not whitelisted"@,
        ),
        CookieGatewayError::UserNotOptedIn => (403, "User has not opted in to cookie capture"@),
        CookieGatewayError::InvalidUrl { url } => (400, "Invalid URL: "@ + url@),
        CookieGatewayError::InvalidDomain { domain } => (400, "Invalid domain: "@ + domain@),
        CookieGatewayError::NoCookiesFound { domain } => (
            404,
            "No cookies found for domain: "@ + domain@,
        ),
        CookieGatewayError::ExtensionClientUnavailable => (
            503,
            "No active extension client is connected"@,
        ),
        CookieGatewayError::ExtensionCommandTimeout { domain, timeout_ms } => (
            504,
            "Extension command timed out for domain '"@ + domain@ + "' after "@ + decimal(
                timeout_ms as nat,
            ) + "ms"@,
        ),
        CookieGatewayError::ExtensionCommandFailed { message } => (
            502,
            "Extension command failed: "@ + message@,
        ),
        CookieGatewayError::HttpRequestFailed { message } => (502, "HTTP request failed: "@ + message@),
        CookieGatewayError::ResponseParseError { message } => (
            500,
            "Failed to parse response: "@ + message@,
        ),
    }
}

impl CookieGatewayError {
    /// The message of this error.
    pub fn message(&self) -> (r: String)
        ensures
            r@ == error_message(*self),
    {
        let mut out = String::new();
        match self {
            CookieGatewayError::DomainNotWhitelisted { domain } => {
                push_str(&mut out, "Domain not whitelisted: ");
                push_str(&mut out, domain.as_str());
            },
            CookieGatewayError::UserNotOptedIn => {
                push_str(&mut out, "User has not opted in");
            },
            CookieGatewayError::InvalidUrl { url } => {
                push_str(&mut out, "Invalid URL format: ");
                push_str(&mut out, url.as_str());
            },
            CookieGatewayError::InvalidDomain { domain } => {
                push_str(&mut out, "Invalid domain: ");
                push_str(&mut out, domain.as_str());
            },
            CookieGatewayError::NoCookiesFound { domain } => {
                push_str(&mut out, "No cookies found for domain: ");
                push_str(&mut out, domain.as_str());
            },
            CookieGatewayError::ExtensionClientUnavailable => {
                push_str(&mut out, "No active extension client is connected");
            },
            CookieGatewayError::ExtensionCommandTimeout { domain, timeout_ms } => {
                push_str(&mut out, "Extension command timed out for domain '");
                push_str(&mut out, domain.as_str());
                push_str(&mut out, "' after ");
                push_decimal(&mut out, *timeout_ms);
                push_str(&mut out, "ms");
            },
            CookieGatewayError::ExtensionCommandFailed { message } => {
                push_str(&mut out, "Extension command failed: ");
                push_str(&mut out, message.as_str());
            },
            CookieGatewayError::HttpRequestFailed { message } => {
                push_str(&mut out, "HTTP request failed: ");
                push_str(&mut out, message.as_str());
            },
            CookieGatewayError::ResponseParseError { message } => {
                push_str(&mut out, "Failed to parse response: ");
                push_str(&mut out, message.as_str());
            },
        }
        out
    }

    /// The HTTP status and error message this error is answered with.
    pub fn into_response(&self) -> (r: (u16, String))
        ensures
            r.0 == error_response(*self).0,
            r.1@ == error_response(*self).1,
    {
        match self {
            CookieGatewayError::DomainNotWhitelisted { domain } => {
                let mut m = owned("Domain '");
                push_str(&mut m, domain.as_str());
                push_str(&mut m, "' is not whitelisted");
                (403, m)
            },
            CookieGatewayError::UserNotOptedIn => (
                403,
                owned("User has not opted in to cookie capture"),
            ),
            CookieGatewayError::InvalidUrl { url } => {
                let mut m = owned("Invalid URL: ");
                push_str(&mut m, url.as_str());
                (400, m)
            },
            CookieGatewayError::InvalidDomain { domain } => {
                let mut m = owned("Invalid domain: ");
                push_str(&mut m, domain.as_str());
                (400, m)
            },
            CookieGatewayError::NoCookiesFound { domain } => {
                let mut m = owned("No cookies found for domain: ");
                push_str(&mut m, domain.as_str());
                (404, m)
            },
            CookieGatewayError::ExtensionClientUnavailable => (
                503,
                owned("No active extension client is connected"),
            ),
            CookieGatewayError::ExtensionCommandTimeout { .. } => (504, self.message()),
            CookieGatewayError::ExtensionCommandFailed { .. } => (502, self.message()),
            CookieGatewayError::HttpRequestFailed { .. } => (502, self.message()),
            CookieGatewayError::ResponseParseError { .. } => (500, self.message()),
        }
    }
}

} // verus!
