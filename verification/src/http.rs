//! HTTP clients, built by `reqwest` and carried through the library as opaque
//! values for the caller to send requests with.

use vstd::prelude::*;

use crate::error::HttpFailure;

verus! {

/// `reqwest::Client`, carried as an opaque value.
#[verifier::external_type_specification]
#[verifier::external_body]
pub struct ExClient(reqwest::Client);

/// How the client for web searches is configured.
#[derive(Debug)]
pub struct SearchClientSettings {
    /// The `User-Agent` header of every request.
    pub user_agent: String,
    /// Seconds allowed to connect.
    pub connect_timeout_secs: u64,
    /// Seconds allowed for a whole request.
    pub request_timeout_secs: u64,
    /// Redirects followed at most.
    pub max_redirects: usize,
}

/// How the client for the model provider is configured.
#[derive(Debug)]
pub struct ProviderClientSettings {
    /// Seconds allowed to connect.
    pub connect_timeout_secs: u64,
}

/// Builds the client for web searches with `reqwest::ClientBuilder` from
/// `settings`: its user agent, its connect and overall timeouts in seconds,
/// and at most `max_redirects` redirects followed. Building can fail (the TLS
/// backend may not initialize); nothing is claimed of when, only how the
/// failure is classified.
#[verifier::external_body]
pub(crate) fn build_search_client(settings: &SearchClientSettings) -> (res: Result<
    reqwest::Client,
    HttpFailure,
>) {
    let built = reqwest::Client::builder().user_agent(settings.user_agent.as_str()).connect_timeout(
        std::time::Duration::from_secs(settings.connect_timeout_secs),
    ).timeout(std::time::Duration::from_secs(settings.request_timeout_secs)).redirect(
        reqwest::redirect::Policy::limited(settings.max_redirects),
    ).build();
    match built {
        Ok(client) => Ok(client),
        Err(error) if error.is_connect() => Err(HttpFailure::Connect),
        Err(error) if error.is_timeout() => Err(HttpFailure::Timeout),
        Err(_) => Err(HttpFailure::Other),
    }
}

/// Builds the client for the model provider with `reqwest::ClientBuilder`
/// from `settings`: its connect timeout in seconds and nothing else. Building
/// can fail (the TLS backend may not initialize); nothing is claimed of when,
/// only how the failure is classified.
#[verifier::external_body]
pub(crate) fn build_provider_client(settings: &ProviderClientSettings) -> (res: Result<
    reqwest::Client,
    HttpFailure,
>) {
    let built = reqwest::Client::builder().connect_timeout(
        std::time::Duration::from_secs(settings.connect_timeout_secs),
    ).build();
    match built {
        Ok(client) => Ok(client),
        Err(error) if error.is_connect() => Err(HttpFailure::Connect),
        Err(error) if error.is_timeout() => Err(HttpFailure::Timeout),
        Err(_) => Err(HttpFailure::Other),
    }
}

} // verus!
