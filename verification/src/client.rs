//! Selects the summarization backend from configuration, once, before any
//! diff work begins. A missing or incomplete configuration is reported as a
//! construction failure instead of starting a generation that cannot finish.

use vstd::prelude::*;

use crate::summarize::BackendError;
use crate::summarize::StubBackend;

verus! {

/// Which provider the configuration names.
#[derive(Copy, Clone, PartialEq, Eq, Structural, Debug)]
pub enum ModelProvider {
    OpenAI,
    TesterFoobar,
}

/// The provider-specific part of the configuration for the hosted provider.
pub struct OpenAISettings {
    pub api_key: Option<String>,
}

/// The configuration the backend selection reads.
pub struct Settings {
    pub model_provider: Option<ModelProvider>,
    pub openai: Option<OpenAISettings>,
}

/// The selected backend: either the in-library deterministic stub or the
/// credentials for the hosted provider, whose wire protocol lives outside
/// the library.
pub enum BackendHandle {
    Stub(StubBackend),
    OpenAI(OpenAIConfig),
}

/// What the hosted provider needs to be constructed.
pub struct OpenAIConfig {
    pub api_key: String,
}

/// The hosted provider has a non-empty credential configured.
pub open spec fn openai_configured(s: Settings) -> bool {
    match s.openai {
        Some(o) => match o.api_key {
            Some(k) => k@.len() > 0,
            None => false,
        },
        None => false,
    }
}

/// The configured credential, where one is configured.
pub open spec fn configured_key(s: Settings) -> Seq<char> {
    match s.openai {
        Some(o) => match o.api_key {
            Some(k) => k@,
            None => Seq::empty(),
        },
        None => Seq::empty(),
    }
}

/// A backend can be constructed from this configuration.
pub open spec fn constructible(s: Settings) -> bool {
    s.model_provider == Some(ModelProvider::TesterFoobar) || (s.model_provider == Some(
        ModelProvider::OpenAI,
    ) && openai_configured(s))
}

/// Picks the backend that the configuration names, or fails with
/// `ConstructionFailed` when no backend can be built from it.
pub fn get_llm_client(settings: &Settings) -> (r: Result<BackendHandle, BackendError>)
    ensures
        r is Ok <==> constructible(*settings),
        r is Err ==> r->Err_0 == BackendError::ConstructionFailed,
        settings.model_provider == Some(ModelProvider::TesterFoobar) ==> (r matches Ok(
            BackendHandle::Stub(s),
        ) && s.prefix@.len() == 0 && s.suffix@.len() == 0),
        settings.model_provider == Some(ModelProvider::OpenAI) && openai_configured(*settings)
            ==> (r matches Ok(BackendHandle::OpenAI(c)) && c.api_key@ == configured_key(
            *settings,
        )),
{
    match &settings.model_provider {
        Some(ModelProvider::TesterFoobar) => Ok(BackendHandle::Stub(StubBackend::new())),
        Some(ModelProvider::OpenAI) => match &settings.openai {
            Some(o) => match &o.api_key {
                Some(k) => {
                    if k.as_str().is_empty() {
                        Err(BackendError::ConstructionFailed)
                    } else {
                        Ok(BackendHandle::OpenAI(OpenAIConfig { api_key: k.clone() }))
                    }
                },
                None => Err(BackendError::ConstructionFailed),
            },
            None => Err(BackendError::ConstructionFailed),
        },
        None => Err(BackendError::ConstructionFailed),
    }
}

} // verus!
