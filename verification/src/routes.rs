//! The decisions behind the three HTTP routes.  Each handler's outcome is a
//! plain value describing the response; the web framework around the
//! library turns it into a wire response.
//!
//! The callback route is split in two around the provider exchange: first
//! the query parameters are validated, then — once the caller has run the
//! asynchronous code-for-token exchange — the outcome is turned into a
//! response and, on success, the session slot is overwritten.

use vstd::prelude::*;
use crate::session::SessionSlot;

verus! {

/// What a route answers: a plain body, a redirect, or a bare failure
/// status.
#[derive(Debug, PartialEq, Eq)]
pub enum RouteResponse {
    Content { status: u16, body: String },
    Redirect { status: u16, location: String },
    Failure { status: u16 },
}

/// A callback request that cannot be processed at all: a required query
/// parameter is absent.
#[derive(Clone, Copy, Debug, PartialEq, Eq, Structural)]
pub enum RequestValidationError {
    MissingCode,
    MissingState,
}

/// Why a code-for-token exchange failed, as reported by the caller that ran
/// it: the provider rejected the code or state, or the call itself failed.
#[derive(Debug, PartialEq, Eq)]
pub struct ExchangeError {
    pub message: String,
}

impl RequestValidationError {
    /// The response owed for an unprocessable callback: a bare server
    /// error, with the detail kept for the log.
    pub fn response(&self) -> (r: RouteResponse)
        ensures
            r matches RouteResponse::Failure { status } && status == 500,
    {
        RouteResponse::Failure { status: 500 }
    }

    /// A short diagnostic for the server log.
    pub fn describe(&self) -> (msg: &'static str)
        ensures
            *self == RequestValidationError::MissingCode ==> msg@ == "error retrieving auth code"@,
            *self == RequestValidationError::MissingState ==> msg@
                == "error retrieving CSRF state"@,
    {
        match self {
            RequestValidationError::MissingCode => "error retrieving auth code",
            RequestValidationError::MissingState => "error retrieving CSRF state",
        }
    }
}

/// The root route: a fixed greeting, always, whatever the session holds.
pub fn handle_root() -> (r: RouteResponse)
    ensures
        r matches RouteResponse::Content { status, body } && status == 200 && body@
            == "hello, world!"@,
{
    RouteResponse::Content { status: 200, body: "hello, world!".to_owned() }
}

/// Whether a response is the redirect to the given consent URL: a 302 whose
/// target equals the URL, byte for byte.
pub open spec fn is_consent_redirect(r: RouteResponse, consent_url: Seq<char>) -> bool {
    r matches RouteResponse::Redirect { status, location } && status == 302 && location@
        == consent_url
}

/// The auth route: a redirect to the consent URL generated at startup.  No
/// state is read or changed beyond the URL itself.
pub fn handle_auth(consent_url: &str) -> (r: RouteResponse)
    ensures
        is_consent_redirect(r, consent_url@),
{
    RouteResponse::Redirect { status: 302, location: consent_url.to_owned() }
}

/// The auth route is idempotent: any two responses that meet its contract
/// for the same consent URL are the same response, byte for byte.
pub proof fn lemma_auth_idempotent(r1: RouteResponse, r2: RouteResponse, consent_url: Seq<char>)
    requires
        is_consent_redirect(r1, consent_url),
        is_consent_redirect(r2, consent_url),
    ensures
        r1 matches RouteResponse::Redirect { status: s1, location: l1 } && (r2 matches
            RouteResponse::Redirect { status: s2, location: l2 } && s1 == s2 && l1@ == l2@),
{
}

/// Validate the callback query parameters: both `code` and `state` must be
/// present, `code` being checked first.  On success the two values are
/// handed back untouched for the exchange.
pub fn validate_callback_params(code: Option<String>, state: Option<String>) -> (r: Result<
    (String, String),
    RequestValidationError,
>)
    ensures
        r is Ok <==> code is Some && state is Some,
        code is None ==> (r matches Err(e) && e == RequestValidationError::MissingCode),
        code is Some && state is None ==> (r matches Err(e) && e
            == RequestValidationError::MissingState),
        r matches Ok(p) ==> code == Some(p.0) && state == Some(p.1),
{
    let c = match code {
        Some(c) => c,
        None => {
            return Err(RequestValidationError::MissingCode);
        },
    };
    let s = match state {
        Some(s) => s,
        None => {
            return Err(RequestValidationError::MissingState);
        },
    };
    Ok((c, s))
}

/// Finish the callback once the exchange has run.  A failed exchange — the
/// provider rejecting the code or the CSRF state, or the call itself
/// failing — yields a bare 500 and leaves the slot untouched; a successful
/// one overwrites the slot with the new client and redirects home.
pub fn complete_authentication<C>(
    outcome: Result<C, ExchangeError>,
    slot: &mut SessionSlot<C>,
) -> (r: RouteResponse)
    ensures
        outcome is Err ==> (r matches RouteResponse::Failure { status } && status == 500),
        outcome is Err ==> *final(slot) == *old(slot),
        outcome matches Ok(c) ==> (r matches RouteResponse::Redirect { status, location } && status
            == 302 && location@ == "/"@),
        outcome matches Ok(c) ==> final(slot).current() == Some(c),
{
    match outcome {
        Err(_) => RouteResponse::Failure { status: 500 },
        Ok(c) => {
            slot.store(c);
            RouteResponse::Redirect { status: 302, location: "/".to_owned() }
        },
    }
}

} // verus!
