use gptcommit::client::get_llm_client;
use gptcommit::client::BackendHandle;
use gptcommit::client::ModelProvider;
use gptcommit::client::OpenAISettings;
use gptcommit::client::Settings;
use gptcommit::summarize::BackendError;

#[test]
fn tester_provider_selects_the_stub() {
    let settings = Settings {
        model_provider: Some(ModelProvider::TesterFoobar),
        openai: None,
    };
    match get_llm_client(&settings) {
        Ok(BackendHandle::Stub(stub)) => {
            assert_eq!(stub.prefix, "");
            assert_eq!(stub.suffix, "");
        }
        _ => panic!("expected the stub backend"),
    }
}

#[test]
fn openai_provider_with_key_selects_openai() {
    let settings = Settings {
        model_provider: Some(ModelProvider::OpenAI),
        openai: Some(OpenAISettings { api_key: Some("SECRET-REDACTED".to_string()) }),
    };
    match get_llm_client(&settings) {
        Ok(BackendHandle::OpenAI(config)) => {
            assert_eq!(config.api_key, "SECRET-REDACTED");
        }
        _ => panic!("expected the hosted backend"),
    }
}

#[test]
fn openai_provider_without_key_fails_construction() {
    let settings = Settings {
        model_provider: Some(ModelProvider::OpenAI),
        openai: Some(OpenAISettings { api_key: None }),
    };
    match get_llm_client(&settings) {
        Err(BackendError::ConstructionFailed) => {}
        _ => panic!("expected a construction failure"),
    }
}

#[test]
fn openai_provider_with_empty_key_fails_construction() {
    let settings = Settings {
        model_provider: Some(ModelProvider::OpenAI),
        openai: Some(OpenAISettings { api_key: Some(String::new()) }),
    };
    assert!(matches!(
        get_llm_client(&settings),
        Err(BackendError::ConstructionFailed)
    ));
}

#[test]
fn openai_provider_without_section_fails_construction() {
    let settings = Settings {
        model_provider: Some(ModelProvider::OpenAI),
        openai: None,
    };
    assert!(matches!(
        get_llm_client(&settings),
        Err(BackendError::ConstructionFailed)
    ));
}

#[test]
fn missing_provider_fails_construction() {
    let settings = Settings { model_provider: None, openai: None };
    assert!(matches!(
        get_llm_client(&settings),
        Err(BackendError::ConstructionFailed)
    ));
}
