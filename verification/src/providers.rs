//! Provider-facing types: the error classification of provider replies and
//! the values that cross the provider boundary.
use crate::event::{CanonicalEvent, ProviderName};
use crate::numtext::{decimal, decimal_string};
use crate::text::{append_str, ascii_lowercase, ascii_lowercase_chars, chars_of, contains_chars, contains_seq, owned};
use vstd::prelude::*;

verus! {

#[derive(Debug)]
pub enum ProviderError {
    NotConfigured(ProviderName),
    Auth { provider: ProviderName, status: u16, body: String },
    SyncTokenExpired(ProviderName),
    PreconditionFailed(ProviderName),
    RateLimited { provider: ProviderName, status: u16, body: String },
    UidCollision { provider: ProviderName, calendar_id: String, uid: String },
    Http { provider: ProviderName, status: u16, body: String },
    Network { provider: ProviderName, message: String },
    Request(String),
    Mapping(String),
}

/// A reply that means the credentials were refused, judged on the
/// lower-cased body.
pub open spec fn auth_response(provider: ProviderName, status: u16, body: Seq<char>) -> bool {
    let b = ascii_lowercase(body);
    match provider {
        ProviderName::Google => (status == 400 && (contains_seq(b, "invalid_grant"@) || contains_seq(
            b,
            "invalid_client"@,
        ) || contains_seq(b, "unauthorized_client"@))) || (status == 403 && (contains_seq(b, "autherror"@)
            || contains_seq(b, "insufficientpermissions"@) || contains_seq(b, "insufficient permissions"@))),
        ProviderName::Icloud => status == 403 && (contains_seq(b, "forbidden"@) || contains_seq(
            b,
            "unauthorized"@,
        ) || contains_seq(b, "authentication"@)),
    }
}

/// A reply that means the provider is throttling.
pub open spec fn rate_limit_response(provider: ProviderName, status: u16, body: Seq<char>) -> bool {
    let b = ascii_lowercase(body);
    match provider {
        ProviderName::Google => status == 429 || (status == 403 && (contains_seq(b, "ratelimitexceeded"@)
            || contains_seq(b, "userratelimitexceeded"@))),
        ProviderName::Icloud => status == 429 || status == 503,
    }
}

fn lower_contains(lower: &Vec<char>, pat: &str) -> (r: bool)
    ensures
        r == contains_seq(lower@, pat@),
{
    let p = chars_of(pat);
    contains_chars(lower, &p)
}

fn is_auth_response(provider: ProviderName, status: u16, body: &str) -> (r: bool)
    ensures
        r == auth_response(provider, status, body@),
{
    let raw = chars_of(body);
    let b = ascii_lowercase_chars(&raw);
    match provider {
        ProviderName::Google => {
            (status == 400 && (lower_contains(&b, "invalid_grant") || lower_contains(&b, "invalid_client")
                || lower_contains(&b, "unauthorized_client"))) || (status == 403 && (lower_contains(
                &b,
                "autherror",
            ) || lower_contains(&b, "insufficientpermissions") || lower_contains(
                &b,
                "insufficient permissions",
            )))
        },
        ProviderName::Icloud => {
            status == 403 && (lower_contains(&b, "forbidden") || lower_contains(&b, "unauthorized")
                || lower_contains(&b, "authentication"))
        },
    }
}

fn is_rate_limit_response(provider: ProviderName, status: u16, body: &str) -> (r: bool)
    ensures
        r == rate_limit_response(provider, status, body@),
{
    match provider {
        ProviderName::Google => {
            if status == 429 {
                return true;
            }
            if status != 403 {
                return false;
            }
            let raw = chars_of(body);
            let b = ascii_lowercase_chars(&raw);
            lower_contains(&b, "ratelimitexceeded") || lower_contains(&b, "userratelimitexceeded")
        },
        ProviderName::Icloud => status == 429 || status == 503,
    }
}

/// The error's message, as the command line shows it.
pub open spec fn error_text(e: ProviderError) -> Seq<char> {
    match e {
        ProviderError::NotConfigured(p) => "provider is not configured: "@ + p.spec_name(),
        ProviderError::Auth { provider, status, body } => provider.spec_name() + " authentication failed with "@
            + decimal(status as nat) + ": "@ + body@,
        ProviderError::SyncTokenExpired(p) => p.spec_name() + " sync token expired"@,
        ProviderError::PreconditionFailed(p) => p.spec_name() + " precondition failed"@,
        ProviderError::RateLimited { provider, status, body } => provider.spec_name() + " rate limit failed with "@
            + decimal(status as nat) + ": "@ + body@,
        ProviderError::UidCollision { provider, calendar_id, uid } => provider.spec_name() + " UID collision for "@
            + uid@ + " in "@ + calendar_id@,
        ProviderError::Http { provider, status, body } => provider.spec_name() + " request failed with "@ + decimal(
            status as nat,
        ) + ": "@ + body@,
        ProviderError::Network { provider, message } => provider.spec_name() + " network request failed: "@
            + message@,
        ProviderError::Request(m) => "provider request failed: "@ + m@,
        ProviderError::Mapping(m) => "mapping failed: "@ + m@,
    }
}

fn status_message(provider: ProviderName, what: &str, status: u16, body: &str) -> (r: String)
    ensures
        r@ == provider.spec_name() + what@ + decimal(status as nat) + ": "@ + body@,
{
    let mut out = provider.to_string();
    append_str(&mut out, what);
    let code = decimal_string(status as u64);
    append_str(&mut out, code.as_str());
    append_str(&mut out, ": ");
    append_str(&mut out, body);
    out
}

fn after(head: String, tail: &str) -> (r: String)
    ensures
        r@ == head@ + tail@,
{
    let mut out = head;
    append_str(&mut out, tail);
    out
}

impl ProviderError {
    /// Classifies an HTTP error reply: refused credentials (any 401, or the
    /// provider's own auth replies), throttling, or a plain HTTP failure.
    pub fn http(provider: ProviderName, status: u16, body: &str) -> (r: ProviderError)
        ensures
            match r {
                ProviderError::Auth { provider: p, status: s, body: b } => p == provider && s == status && b@
                    == body@ && (status == 401 || auth_response(provider, status, body@)),
                ProviderError::RateLimited { provider: p, status: s, body: b } => p == provider && s
                    == status && b@ == body@ && !(status == 401 || auth_response(provider, status, body@))
                    && rate_limit_response(provider, status, body@),
                ProviderError::Http { provider: p, status: s, body: b } => p == provider && s == status
                    && b@ == body@ && !(status == 401 || auth_response(provider, status, body@))
                    && !rate_limit_response(provider, status, body@),
                _ => false,
            },
    {
        if status == 401 || is_auth_response(provider, status, body) {
            ProviderError::Auth { provider, status, body: owned(body) }
        } else if is_rate_limit_response(provider, status, body) {
            ProviderError::RateLimited { provider, status, body: owned(body) }
        } else {
            ProviderError::Http { provider, status, body: owned(body) }
        }
    }

    /// A transport failure, carrying the error's text.
    pub fn network(provider: ProviderName, message: &str) -> (r: ProviderError)
        ensures
            r matches ProviderError::Network { provider: p, message: m } && p == provider && m@ == message@,
    {
        ProviderError::Network { provider, message: owned(message) }
    }

    /// The error's message (`error_text`).
    pub fn message(&self) -> (r: String)
        ensures
            r@ == error_text(*self),
    {
        match self {
            ProviderError::NotConfigured(p) => after(owned("provider is not configured: "), p.to_string().as_str()),
            ProviderError::Auth { provider, status, body } => status_message(
                *provider,
                " authentication failed with ",
                *status,
                body.as_str(),
            ),
            ProviderError::SyncTokenExpired(p) => after(p.to_string(), " sync token expired"),
            ProviderError::PreconditionFailed(p) => after(p.to_string(), " precondition failed"),
            ProviderError::RateLimited { provider, status, body } => status_message(
                *provider,
                " rate limit failed with ",
                *status,
                body.as_str(),
            ),
            ProviderError::UidCollision { provider, calendar_id, uid } => {
                let mut out = after(provider.to_string(), " UID collision for ");
                append_str(&mut out, uid.as_str());
                append_str(&mut out, " in ");
                append_str(&mut out, calendar_id.as_str());
                out
            },
            ProviderError::Http { provider, status, body } => status_message(
                *provider,
                " request failed with ",
                *status,
                body.as_str(),
            ),
            ProviderError::Network { provider, message } => {
                let out = after(provider.to_string(), " network request failed: ");
                after(out, message.as_str())
            },
            ProviderError::Request(m) => after(owned("provider request failed: "), m.as_str()),
            ProviderError::Mapping(m) => after(owned("mapping failed: "), m.as_str()),
        }
    }

    pub fn is_rate_limited(&self) -> (r: bool)
        ensures
            r == (self is RateLimited),
    {
        match self {
            ProviderError::RateLimited { .. } => true,
            _ => false,
        }
    }
}

/// A calendar as a provider lists it; `raw` holds the provider's JSON text.
#[derive(Debug, Clone)]
pub struct ProviderCalendar {
    pub id: String,
    pub name: String,
    pub timezone: Option<String>,
    pub writable: bool,
    pub raw: String,
}

#[derive(Debug, Clone)]
pub struct ProviderSyncCursor {
    pub sync_token: Option<String>,
    pub full_sync: bool,
}

#[derive(Debug, Clone)]
pub struct ProviderChangeSet {
    pub provider: ProviderName,
    pub calendar_id: String,
    pub sync_token: Option<String>,
    pub events: Vec<CanonicalEvent>,
}

} // verus!
