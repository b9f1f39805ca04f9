//! The provider that stands in while no completion provider is
//! configured, so that the application can start and show onboarding.

use vstd::prelude::*;
use vstd::string::*;

verus! {

pub const NO_PROVIDER: &'static str = "none";

pub const NOT_CONFIGURED: &'static str =
    "No provider configured. Please complete onboarding to set up a provider.";

/// Why a provider could not complete a request.
#[derive(Debug, PartialEq)]
pub enum ProviderError {
    Internal(String),
}

/// A provider that answers every request with an error.
#[derive(Clone, Copy, Debug, PartialEq, Eq, Structural)]
pub struct PlaceholderProvider;

impl PlaceholderProvider {
    /// The provider's name: `none`.
    pub fn name(&self) -> (s: &'static str)
        ensures
            s@ == NO_PROVIDER@,
    {
        NO_PROVIDER
    }

    /// The provider's default model: `none`.
    pub fn default_model(&self) -> (s: &'static str)
        ensures
            s@ == NO_PROVIDER@,
    {
        NO_PROVIDER
    }

    /// The models that the provider supports: none.
    pub fn supported_models(&self) -> (v: Vec<String>)
        ensures
            v@.len() == 0,
    {
        Vec::new()
    }

    /// The context window of a model: unknown for every model.
    pub fn context_window(&self, model: &str) -> (w: Option<u32>)
        ensures
            w is None,
    {
        None
    }

    /// The error that every completion and every stream ends in.
    pub fn complete(&self) -> (r: Result<(), ProviderError>)
        ensures
            r matches Err(ProviderError::Internal(text)) && text@ == NOT_CONFIGURED@,
    {
        Err(ProviderError::Internal(String::from_str(NOT_CONFIGURED)))
    }

    /// Whether the provider streams: no.
    pub fn supports_streaming(&self) -> (b: bool)
        ensures
            !b,
    {
        false
    }

    /// Whether the provider takes tools: no.
    pub fn supports_tools(&self) -> (b: bool)
        ensures
            !b,
    {
        false
    }

    /// Whether the provider takes images: no.
    pub fn supports_vision(&self) -> (b: bool)
        ensures
            !b,
    {
        false
    }
}

} // verus!
