//! The trusted boundary to the OAuth client library: building the
//! authorization-code flow, the unauthenticated client and the provider
//! consent URL at startup.
//!
//! The exchange of the authorization code for a token is asynchronous and
//! networked, so it runs outside the library; its outcome comes back to
//! [`crate::routes::complete_authentication`] as a plain value.

use vstd::prelude::*;
use crate::config::{Config, ConfigError};

verus! {

/// Whether a string parses as a URL, as the `url` crate decides it: a
/// function of the string alone.
pub uninterp spec fn url_parse_ok(s: Seq<char>) -> bool;

#[verifier::external_type_specification]
#[verifier::external_body]
pub struct ExRedirectUrl(spotify_rs::RedirectUrl);

#[verifier::external_type_specification]
#[verifier::external_body]
pub struct ExParseError(url::ParseError);

#[verifier::external_type_specification]
#[verifier::external_body]
pub struct ExAuthCodeFlow(spotify_rs::AuthCodeFlow);

/// The unauthenticated OAuth client with its CSRF verifier, created once at
/// startup.  The underlying client type cannot be declared to Verus — its
/// generics are bounded by the OAuth library's sealed typestate traits — so
/// it is held opaquely here.  The library never reads inside it: only the
/// entry point does, to run the asynchronous code-for-token exchange that
/// no verified code can hold — an exchange that consumes the client, per
/// that typestate design.
#[verifier::external_body]
pub struct Authenticator {
    /// The underlying client, for the entry point to run the exchange on.
    pub client: spotify_rs::AuthCodeClient<spotify_rs::auth::CsrfVerifier>,
}

/// Relies on `spotify_rs::RedirectUrl::new`: it wraps `url::Url::parse` and
/// succeeds exactly when the string parses as a URL.
#[verifier::external_body]
fn new_redirect_url(url: String) -> (r: Result<spotify_rs::RedirectUrl, url::ParseError>)
    ensures
        r is Ok <==> url_parse_ok(url@),
{
    spotify_rs::RedirectUrl::new(url)
}

/// Relies on `spotify_rs::AuthCodeFlow::new`: it gathers the credentials
/// and scopes that describe the authorization-code flow.
#[verifier::external_body]
fn new_auth_code_flow(
    client_id: String,
    client_secret: String,
    scopes: Vec<String>,
) -> (flow: spotify_rs::AuthCodeFlow)
{
    spotify_rs::AuthCodeFlow::new(client_id, client_secret, scopes)
}

/// Relies on `spotify_rs::AuthCodeClient::new`: it builds the client and
/// the consent URL.  The URL embeds a freshly drawn CSRF token, so nothing
/// is promised of its text.
#[verifier::external_body]
fn new_auth_code_client(
    flow: spotify_rs::AuthCodeFlow,
    redirect_url: spotify_rs::RedirectUrl,
    auto_refresh: bool,
) -> (r: (Authenticator, String))
{
    let (client, url) = spotify_rs::AuthCodeClient::<spotify_rs::auth::CsrfVerifier>::new(
        flow,
        redirect_url,
        auto_refresh,
    );
    (Authenticator { client }, url.to_string())
}

/// The fixed scopes the consent page asks the user to grant.
pub fn requested_scopes() -> (r: Vec<String>)
    ensures
        r@.len() == 2,
        r@[0]@ == "user-library-read"@,
        r@[1]@ == "playlist-read-private"@,
{
    let mut scopes: Vec<String> = Vec::new();
    scopes.push("user-library-read".to_owned());
    scopes.push("playlist-read-private".to_owned());
    scopes
}

/// Build the authenticator and the provider consent URL from the resolved
/// configuration, with the fixed scope list and automatic token refresh on.
/// This fails exactly when the configured redirect URL is malformed, and is
/// called once: the pair lives for the rest of the process.
pub fn initialize(config: &Config) -> (r: Result<(Authenticator, String), ConfigError>)
    ensures
        r is Ok <==> url_parse_ok(config.redirect_url@),
        r matches Err(e) ==> e == ConfigError::InvalidRedirectUrl,
{
    let redirect_url = match new_redirect_url(config.redirect_url.clone()) {
        Ok(u) => u,
        Err(_) => {
            return Err(ConfigError::InvalidRedirectUrl);
        },
    };
    let auto_refresh = true;
    let scopes = requested_scopes();
    let auth_code_flow = new_auth_code_flow(
        config.client_id.clone(),
        config.client_secret.clone(),
        scopes,
    );
    let (authenticator, consent_url) = new_auth_code_client(
        auth_code_flow,
        redirect_url,
        auto_refresh,
    );
    Ok((authenticator, consent_url))
}

} // verus!
