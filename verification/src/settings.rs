//! Configuration shared by every connection a façade creates: the API key and
//! the base URL of the remote service.

use vstd::prelude::*;

verus! {

/// The base URL used when no other URL is configured.
pub const DEFAULT_API_URL: &'static str = "https://retdec.com/service/api";

/// Immutable configuration for the remote services.
///
/// The API key is required by the remote side; the API URL is optional and
/// falls back to [`DEFAULT_API_URL`]. An environment override, if desired,
/// is applied by the caller before the settings are handed to a façade, so
/// that an explicitly configured URL always wins.
#[derive(Clone)]
pub struct Settings {
    pub api_key: Option<String>,
    pub api_url: Option<String>,
}

impl Settings {
    /// The base API URL these settings resolve to.
    pub open spec fn api_url_view(&self) -> Seq<char> {
        match self.api_url {
            Some(u) => u@,
            None => DEFAULT_API_URL@,
        }
    }

    /// Creates settings with no API key and the default API URL.
    pub fn new() -> (r: Self)
        ensures
            r.api_key is None,
            r.api_url is None,
    {
        Settings { api_key: None, api_url: None }
    }

    /// Returns the settings with the API key set.
    pub fn with_api_key(self, api_key: &str) -> (r: Self)
        ensures
            r.api_key matches Some(k) && k@ == api_key@,
            r.api_url == self.api_url,
    {
        Settings { api_key: Some(api_key.to_string()), api_url: self.api_url }
    }

    /// Returns the settings with an explicit base API URL.
    pub fn with_api_url(self, api_url: &str) -> (r: Self)
        ensures
            r.api_url matches Some(u) && u@ == api_url@,
            r.api_key == self.api_key,
    {
        Settings { api_key: self.api_key, api_url: Some(api_url.to_string()) }
    }

    /// The configured API key, if one was set.
    pub fn api_key(&self) -> (r: &Option<String>)
        ensures
            r == self.api_key,
    {
        &self.api_key
    }

    /// The base API URL: the explicitly configured one, or the default.
    pub fn api_url(&self) -> (r: String)
        ensures
            r@ == self.api_url_view(),
    {
        match &self.api_url {
            Some(u) => u.clone(),
            None => DEFAULT_API_URL.to_string(),
        }
    }
}

} // verus!
