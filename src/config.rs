//! Settings for talking to the model endpoint.

use crate::error::OpenAIAgentError;
use vstd::prelude::*;
use vstd::string::StringExecFns;

verus! {

/// The endpoint used when none is configured.
pub const DEFAULT_BASE_URL: &'static str = "https://api.openai.com/v1";

/// Seconds a request may take when no timeout is configured.
pub const DEFAULT_TIMEOUT_SECS: u64 = 30;

/// Tokens a reply may hold when no limit is configured.
pub const DEFAULT_MAX_TOKENS: usize = 1024;

/// Sampling temperature, in thousandths, when none is configured.
pub const DEFAULT_TEMPERATURE_MILLI: u32 = 700;

/// Settings for the model endpoint: credentials, model and generation parameters.
#[derive(Debug)]
pub struct OpenAIConfig {
    /// Key used to authenticate.
    pub api_key: String,
    /// Model identifier, such as "gpt-4".
    pub model: String,
    /// Base URL of the endpoint.
    pub base_url: String,
    /// Organization identifier for team accounts.
    pub organization: Option<String>,
    /// Request timeout, in seconds.
    pub timeout_secs: u64,
    /// Maximum number of tokens to generate.
    pub max_tokens: usize,
    /// Sampling temperature, in thousandths (700 stands for 0.7).
    pub temperature_milli: u32,
    /// Whether JSON mode is on.
    pub json_mode: bool,
    /// Whether replies are streamed.
    pub stream: bool,
}

impl OpenAIConfig {
    /// A configuration with no key, the model "gpt-4" and the default parameters.
    pub fn new() -> (r: OpenAIConfig)
        ensures
            r.api_key@.len() == 0,
            r.model@ == "gpt-4"@,
            r.base_url@ == DEFAULT_BASE_URL@,
            r.organization is None,
            r.timeout_secs == DEFAULT_TIMEOUT_SECS,
            r.max_tokens == DEFAULT_MAX_TOKENS,
            r.temperature_milli == DEFAULT_TEMPERATURE_MILLI,
            !r.json_mode,
            !r.stream,
    {
        OpenAIConfig {
            api_key: String::new(),
            model: String::from_str("gpt-4"),
            base_url: String::from_str(DEFAULT_BASE_URL),
            organization: None,
            timeout_secs: DEFAULT_TIMEOUT_SECS,
            max_tokens: DEFAULT_MAX_TOKENS,
            temperature_milli: DEFAULT_TEMPERATURE_MILLI,
            json_mode: false,
            stream: false,
        }
    }

    /// A copy equal to `self`.
    pub fn duplicate(&self) -> (r: OpenAIConfig)
        ensures
            r == *self,
    {
        OpenAIConfig {
            api_key: self.api_key.clone(),
            model: self.model.clone(),
            base_url: self.base_url.clone(),
            organization: crate::models::copy_opt_string(&self.organization),
            timeout_secs: self.timeout_secs,
            max_tokens: self.max_tokens,
            temperature_milli: self.temperature_milli,
            json_mode: self.json_mode,
            stream: self.stream,
        }
    }

    /// Sets the API key.
    pub fn with_api_key(self, api_key: String) -> (r: OpenAIConfig)
        ensures
            r == (OpenAIConfig { api_key, ..self }),
    {
        OpenAIConfig { api_key, ..self }
    }

    /// Sets the model.
    pub fn with_model(self, model: String) -> (r: OpenAIConfig)
        ensures
            r == (OpenAIConfig { model, ..self }),
    {
        OpenAIConfig { model, ..self }
    }

    /// Sets the base URL.
    pub fn with_base_url(self, base_url: String) -> (r: OpenAIConfig)
        ensures
            r == (OpenAIConfig { base_url, ..self }),
    {
        OpenAIConfig { base_url, ..self }
    }

    /// Sets the organization identifier.
    pub fn with_organization(self, organization: String) -> (r: OpenAIConfig)
        ensures
            r == (OpenAIConfig { organization: Some(organization), ..self }),
    {
        OpenAIConfig { organization: Some(organization), ..self }
    }

    /// Sets the request timeout, in seconds.
    pub fn with_timeout(self, timeout_secs: u64) -> (r: OpenAIConfig)
        ensures
            r == (OpenAIConfig { timeout_secs, ..self }),
    {
        OpenAIConfig { timeout_secs, ..self }
    }

    /// Sets the maximum number of tokens to generate.
    pub fn with_max_tokens(self, max_tokens: usize) -> (r: OpenAIConfig)
        ensures
            r == (OpenAIConfig { max_tokens, ..self }),
    {
        OpenAIConfig { max_tokens, ..self }
    }

    /// Sets the sampling temperature, in thousandths.
    pub fn with_temperature_milli(self, temperature_milli: u32) -> (r: OpenAIConfig)
        ensures
            r == (OpenAIConfig { temperature_milli, ..self }),
    {
        OpenAIConfig { temperature_milli, ..self }
    }

    /// Turns JSON mode on or off.
    pub fn with_json_mode(self, json_mode: bool) -> (r: OpenAIConfig)
        ensures
            r == (OpenAIConfig { json_mode, ..self }),
    {
        OpenAIConfig { json_mode, ..self }
    }

    /// Turns streaming on or off.
    pub fn with_stream(self, stream: bool) -> (r: OpenAIConfig)
        ensures
            r == (OpenAIConfig { stream, ..self }),
    {
        OpenAIConfig { stream, ..self }
    }

    /// The API key.
    pub fn api_key(&self) -> (r: &str)
        ensures
            r@ == self.api_key@,
    {
        self.api_key.as_str()
    }

    /// The model identifier.
    pub fn model(&self) -> (r: &str)
        ensures
            r@ == self.model@,
    {
        self.model.as_str()
    }

    /// The base URL.
    pub fn base_url(&self) -> (r: &str)
        ensures
            r@ == self.base_url@,
    {
        self.base_url.as_str()
    }

    /// The organization identifier, if set.
    pub fn organization(&self) -> (r: Option<&str>)
        ensures
            r matches Some(o) ==> self.organization matches Some(s) && o@ == s@,
            r is None <==> self.organization is None,
    {
        match &self.organization {
            Some(o) => Some(o.as_str()),
            None => None,
        }
    }

    /// The request timeout, in seconds.
    pub fn timeout(&self) -> (r: u64)
        ensures
            r == self.timeout_secs,
    {
        self.timeout_secs
    }

    /// The maximum number of tokens to generate.
    pub fn max_tokens(&self) -> (r: usize)
        ensures
            r == self.max_tokens,
    {
        self.max_tokens
    }

    /// The sampling temperature, in thousandths.
    pub fn temperature_milli(&self) -> (r: u32)
        ensures
            r == self.temperature_milli,
    {
        self.temperature_milli
    }

    /// Whether JSON mode is on.
    pub fn json_mode(&self) -> (r: bool)
        ensures
            r == self.json_mode,
    {
        self.json_mode
    }

    /// Whether replies are streamed.
    pub fn stream(&self) -> (r: bool)
        ensures
            r == self.stream,
    {
        self.stream
    }

    /// Checks that credentials are present: a configuration without an API key
    /// is rejected with a `Config` error.
    pub fn validate(&self) -> (r: Result<(), OpenAIAgentError>)
        ensures
            self.api_key@.len() == 0 <==> r is Err,
            r matches Err(e) ==> e == OpenAIAgentError::Config(e->Config_0) && e->Config_0@
                == "API key not provided"@,
    {
        if self.api_key.as_str().is_empty() {
            Err(OpenAIAgentError::Config(String::from_str("API key not provided")))
        } else {
            Ok(())
        }
    }
}

impl Default for OpenAIConfig {
    fn default() -> (r: OpenAIConfig)
        ensures
            r.api_key@.len() == 0,
            r.model@ == "gpt-4"@,
            r.max_tokens == DEFAULT_MAX_TOKENS,
    {
        OpenAIConfig::new()
    }
}

} // verus!
