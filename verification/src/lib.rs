//! A small OAuth2 authorization-code login service for the Spotify Web API.
//!
//! The crate holds the logic of a three-route HTTP server: resolving the
//! process configuration, building the unauthenticated client together with
//! the provider's consent URL, deciding each route's response, and keeping
//! the authenticated client in a shared session slot once the code-for-token
//! exchange has succeeded.  The HTTP and network plumbing around it lives in
//! the binary; everything here is plain, verified logic.

pub mod config;
pub mod routes;
pub mod session;
pub mod spotify;
