//! Configuration: the provider to talk to and the context budget, with
//! overrides from the environment.
//!
//! Sampling settings (temperature, top-p) are floating-point numbers and are
//! kept beside this configuration by the program that loads it.
use vstd::prelude::*;
use crate::domain::{Provider, ProviderProtocol, Timestamp, opt_str};

verus! {

/// Tokens kept free for the response unless configured otherwise.
pub fn default_reserve() -> (r: usize)
    ensures
        r == 1024,
{
    1024
}

/// Where the provider is.
#[derive(Debug)]
pub struct ProviderConfig {
    pub name: Option<String>,
    pub base_url: Option<String>,
    pub api_key: Option<String>,
    pub default_model: Option<String>,
}

impl Default for ProviderConfig {
    fn default() -> (r: Self)
        ensures
            r.name is None,
            r.base_url is None,
            r.api_key is None,
            r.default_model is None,
    {
        ProviderConfig { name: None, base_url: None, api_key: None, default_model: None }
    }
}

/// The context budget.
#[derive(Debug)]
pub struct ContextConfig {
    pub max_tokens: Option<usize>,
    pub reserve_for_response: usize,
}

impl Default for ContextConfig {
    fn default() -> (r: Self)
        ensures
            r.max_tokens is None,
            r.reserve_for_response == 1024,
    {
        ContextConfig { max_tokens: None, reserve_for_response: default_reserve() }
    }
}

/// The whole configuration.
#[derive(Debug)]
pub struct Config {
    pub provider: ProviderConfig,
    pub context: ContextConfig,
}

impl Default for Config {
    fn default() -> (r: Self)
        ensures
            r.provider.name is None,
            r.provider.base_url is None,
            r.provider.api_key is None,
            r.provider.default_model is None,
            r.context.max_tokens is None,
            r.context.reserve_for_response == 1024,
    {
        Config { provider: ProviderConfig::default(), context: ContextConfig::default() }
    }
}

/// Where the configuration file is looked for.
#[derive(Debug, PartialEq, Eq)]
pub enum ConfigLocation {
    /// The path named by the `LLM_TUI_CONFIG` environment variable.
    Explicit(String),
    /// `llm-tui/config.toml` under the user's configuration directory.
    InConfigDir(String),
    /// `config.toml` in the working directory.
    WorkingDirectory,
}

/// Chooses the configuration file: the path from the environment when set,
/// else the file under the user's configuration directory when there is
/// one, else `config.toml` in the working directory.
pub fn config_location(env_path: Option<String>, config_dir: Option<String>) -> (r: ConfigLocation)
    ensures
        match env_path {
            Some(p) => r == ConfigLocation::Explicit(p),
            None => match config_dir {
                Some(d) => r == ConfigLocation::InConfigDir(d),
                None => r == ConfigLocation::WorkingDirectory,
            },
        },
{
    match env_path {
        Some(p) => ConfigLocation::Explicit(p),
        None => match config_dir {
            Some(d) => ConfigLocation::InConfigDir(d),
            None => ConfigLocation::WorkingDirectory,
        },
    }
}

impl Config {
    /// Applies the values of `LLM_TUI_BASE_URL`, `LLM_TUI_API_KEY` and
    /// `LLM_TUI_MODEL` (as read from the environment; `None` when unset):
    /// each one that is set replaces the provider's base URL, API key or
    /// default model, and nothing else changes.
    pub fn apply_env_overrides(
        &mut self,
        base_url: Option<String>,
        api_key: Option<String>,
        model: Option<String>,
    )
        ensures
            final(self).provider.base_url == (match base_url {
                Some(u) => Some(u),
                None => old(self).provider.base_url,
            }),
            final(self).provider.api_key == (match api_key {
                Some(k) => Some(k),
                None => old(self).provider.api_key,
            }),
            final(self).provider.default_model == (match model {
                Some(m) => Some(m),
                None => old(self).provider.default_model,
            }),
            final(self).provider.name == old(self).provider.name,
            final(self).context == old(self).context,
    {
        match base_url {
            Some(u) => {
                self.provider.base_url = Some(u);
            },
            None => {},
        }
        match api_key {
            Some(k) => {
                self.provider.api_key = Some(k);
            },
            None => {},
        }
        match model {
            Some(m) => {
                self.provider.default_model = Some(m);
            },
            None => {},
        }
    }

    /// A provider is configured when it has a base URL.
    pub fn is_provider_configured(&self) -> (r: bool)
        ensures
            r == self.provider.base_url is Some,
    {
        self.provider.base_url.is_some()
    }
}

fn clone_text(s: &Option<String>) -> (r: Option<String>)
    ensures
        opt_str(r) == opt_str(*s),
{
    match s {
        Some(t) => Some(t.clone()),
        None => None,
    }
}

impl Config {
    /// The provider the configuration names, when it has a base URL: named
    /// as configured (else "openai-compatible"), speaking the
    /// OpenAI-compatible protocol, with the configured key and default model,
    /// under identifier `id` and created and updated at `now`.
    pub fn configured_provider(&self, id: u128, now: Timestamp) -> (r: Option<Provider>)
        ensures
            match self.provider.base_url {
                None => r is None,
                Some(url) => r matches Some(p) && {
                    &&& p.id == id
                    &&& p.name@ == match self.provider.name {
                        Some(n) => n@,
                        None => "openai-compatible"@,
                    }
                    &&& p.base_url@ == url@
                    &&& p.protocol == ProviderProtocol::OpenAiCompatible
                    &&& opt_str(p.api_key_ref) == opt_str(self.provider.api_key)
                    &&& opt_str(p.default_model) == opt_str(self.provider.default_model)
                    &&& p.created_at == now
                    &&& p.updated_at == now
                },
            },
    {
        match &self.provider.base_url {
            None => None,
            Some(url) => {
                let name = match &self.provider.name {
                    Some(n) => n.clone(),
                    None => crate::text::owned("openai-compatible"),
                };
                Some(Provider {
                    id,
                    name,
                    base_url: url.clone(),
                    protocol: ProviderProtocol::OpenAiCompatible,
                    api_key_ref: clone_text(&self.provider.api_key),
                    default_model: clone_text(&self.provider.default_model),
                    created_at: now,
                    updated_at: now,
                })
            },
        }
    }
}

} // verus!
