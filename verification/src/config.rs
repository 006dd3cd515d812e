//! What a client needs to know before it can talk to the API.

use crate::error::{ErrorModel, TapsilatError};
use vstd::prelude::*;
use vstd::string::StringExecFns;

verus! {

/// The base URL that a configuration starts with.
pub const DEFAULT_BASE_URL: &'static str = "https://panel.tapsilat.dev/api/v1";

/// The timeout, in seconds, that a configuration starts with.
pub const DEFAULT_TIMEOUT: u64 = 30;

/// The settings of a client: the key that authenticates it, the address of
/// the API and the time allowed for one request.
#[derive(Debug)]
pub struct Config {
    /// The key sent as bearer token with every request.
    pub api_key: String,
    /// The address that every endpoint is joined to.
    pub base_url: String,
    /// The time allowed for one request, in seconds.
    pub timeout: u64,
}

impl Clone for Config {
    fn clone(&self) -> (copy: Config)
        ensures
            copy == *self,
    {
        Config {
            api_key: self.api_key.clone(),
            base_url: self.base_url.clone(),
            timeout: self.timeout,
        }
    }
}

impl Config {
    /// Whether the configuration can be used: neither the key nor the base
    /// URL is empty.
    pub open spec fn usable(&self) -> bool {
        self.api_key@.len() > 0 && self.base_url@.len() > 0
    }

    /// The error that `validate` reports for an unusable configuration. The
    /// key is looked at first.
    pub open spec fn fault(&self) -> ErrorModel {
        if self.api_key@.len() == 0 {
            ErrorModel::ConfigError("API key cannot be empty"@)
        } else {
            ErrorModel::ConfigError("Base URL cannot be empty"@)
        }
    }

    /// A configuration with the given key, the default base URL and the
    /// default timeout.
    pub fn new(api_key: &str) -> (config: Config)
        ensures
            config.api_key@ == api_key@,
            config.base_url@ == DEFAULT_BASE_URL@,
            config.timeout == DEFAULT_TIMEOUT,
    {
        Config {
            api_key: String::from_str(api_key),
            base_url: String::from_str(DEFAULT_BASE_URL),
            timeout: DEFAULT_TIMEOUT,
        }
    }

    /// The same configuration with another base URL.
    pub fn with_base_url(self, base_url: &str) -> (config: Config)
        ensures
            config.base_url@ == base_url@,
            config.api_key == self.api_key,
            config.timeout == self.timeout,
    {
        Config { api_key: self.api_key, base_url: String::from_str(base_url), timeout: self.timeout }
    }

    /// The same configuration with another timeout, in seconds.
    pub fn with_timeout(self, timeout: u64) -> (config: Config)
        ensures
            config.timeout == timeout,
            config.api_key == self.api_key,
            config.base_url == self.base_url,
    {
        Config { api_key: self.api_key, base_url: self.base_url, timeout }
    }

    /// Checks that the key and the base URL are present.
    pub fn validate(&self) -> (r: Result<(), TapsilatError>)
        ensures
            r is Ok <==> self.usable(),
            r matches Err(e) ==> e@ == self.fault(),
    {
        if self.api_key.as_str().is_empty() {
            return Err(TapsilatError::config("API key cannot be empty"));
        }
        if self.base_url.as_str().is_empty() {
            return Err(TapsilatError::config("Base URL cannot be empty"));
        }
        Ok(())
    }
}

} // verus!
