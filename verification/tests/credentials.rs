use ollama_provider::credentials::{
    default_api_key_location, plan_credentials, Credential, CredentialLocation, CredentialPlan,
    InferenceCredentials, OllamaCredentials,
};
use ollama_provider::error::{Error, ErrorDetails};
use secrecy::{ExposeSecret, SecretString};

fn secret(text: &str) -> SecretString {
    SecretString::from(text.to_string())
}

#[test]
fn the_default_location_is_an_environment_variable() {
    assert_eq!(
        default_api_key_location(),
        CredentialLocation::Env("OLLAMA_API_KEY".to_string())
    );
}

#[test]
fn static_and_dynamic_credentials_are_accepted() {
    match OllamaCredentials::try_from(Credential::Static(secret("k"))) {
        Ok(OllamaCredentials::Static(key)) => assert_eq!(key.expose_secret(), "k"),
        other => panic!("{other:?}"),
    }
    match OllamaCredentials::<SecretString>::try_from(Credential::Dynamic("n".to_string())) {
        Ok(OllamaCredentials::Dynamic(name)) => assert_eq!(name, "n"),
        other => panic!("{other:?}"),
    }
}

#[test]
fn a_missing_key_counts_as_none() {
    assert!(matches!(
        OllamaCredentials::<SecretString>::try_from(Credential::Missing),
        Ok(OllamaCredentials::NoKey)
    ));
    assert!(matches!(
        OllamaCredentials::<SecretString>::try_from(Credential::NoKey),
        Ok(OllamaCredentials::NoKey)
    ));
}

#[test]
fn other_credentials_are_a_configuration_error() {
    let expected = Error::new(ErrorDetails::Config {
        message: "Invalid api_key_location for Ollama provider".to_string(),
    });
    assert_eq!(
        OllamaCredentials::try_from(Credential::FileContents(secret("k"))).unwrap_err(),
        expected
    );
    assert_eq!(
        OllamaCredentials::<SecretString>::try_from(Credential::Sdk).unwrap_err(),
        expected
    );
}

#[test]
fn a_static_key_is_used_whatever_the_request_brings() {
    let mut keys = InferenceCredentials::new();
    keys.insert("n".to_string(), secret("other"));
    let credentials = OllamaCredentials::Static(secret("mine"));
    let key = credentials.get_api_key(&keys).unwrap().unwrap();
    assert_eq!(key.expose_secret(), "mine");
}

#[test]
fn a_dynamic_key_is_looked_up_by_name() {
    let mut keys = InferenceCredentials::new();
    keys.insert("n".to_string(), secret("first"));
    keys.insert("n".to_string(), secret("second"));
    keys.insert("m".to_string(), secret("third"));
    let credentials = OllamaCredentials::Dynamic("n".to_string());
    let key = credentials.get_api_key(&keys).unwrap().unwrap();
    assert_eq!(key.expose_secret(), "second");
}

#[test]
fn a_dynamic_key_that_is_not_there_is_an_error() {
    let keys: InferenceCredentials<SecretString> = InferenceCredentials::new();
    let credentials = OllamaCredentials::Dynamic("n".to_string());
    assert_eq!(
        credentials.get_api_key(&keys).unwrap_err(),
        Error::from(ErrorDetails::ApiKeyMissing {
            provider_name: "Ollama".to_string(),
            message: "Dynamic api key `n` is missing".to_string(),
        })
    );
}

#[test]
fn no_key_is_no_error() {
    let keys: InferenceCredentials<SecretString> = InferenceCredentials::new();
    let credentials = OllamaCredentials::NoKey;
    assert!(credentials.get_api_key(&keys).unwrap().is_none());
}

#[test]
fn a_configured_location_is_always_looked_up() {
    let plan = plan_credentials(
        Some(CredentialLocation::Dynamic("d".to_string())),
        Some(OllamaCredentials::Static(secret("cached"))),
    );
    match plan {
        CredentialPlan::Load {
            location,
            keep_as_default,
        } => {
            assert_eq!(location, CredentialLocation::Dynamic("d".to_string()));
            assert!(!keep_as_default);
        }
        other => panic!("{other:?}"),
    }
}

#[test]
fn the_default_is_looked_up_once() {
    match plan_credentials::<SecretString>(None, None) {
        CredentialPlan::Load {
            location,
            keep_as_default,
        } => {
            assert_eq!(location, default_api_key_location());
            assert!(keep_as_default);
        }
        other => panic!("{other:?}"),
    }
    match plan_credentials(None, Some(OllamaCredentials::Static(secret("cached")))) {
        CredentialPlan::Ready(OllamaCredentials::Static(key)) => {
            assert_eq!(key.expose_secret(), "cached")
        }
        other => panic!("{other:?}"),
    }
}

#[test]
fn credentials_are_copied_as_they_are() {
    match OllamaCredentials::Static(secret("k")).clone() {
        OllamaCredentials::Static(key) => assert_eq!(key.expose_secret(), "k"),
        other => panic!("{other:?}"),
    }
    match OllamaCredentials::<SecretString>::Dynamic("n".to_string()).clone() {
        OllamaCredentials::Dynamic(name) => assert_eq!(name, "n"),
        other => panic!("{other:?}"),
    }
    assert!(matches!(
        OllamaCredentials::<SecretString>::NoKey.clone(),
        OllamaCredentials::NoKey
    ));
}
