//! API keys: where they come from and which one a request uses.
//!
//! The type `K` is what the gateway keeps a secret key in. The library hands keys on and never
//! looks inside them.

use vstd::hash_map::StringHashMap;
use vstd::prelude::*;

use crate::error::{Error, ErrorDetails, ErrorModel};
use crate::text::join;

verus! {

pub const PROVIDER_NAME: &'static str = "Ollama";

pub const PROVIDER_TYPE: &'static str = "ollama";

/// Where to look for a credential.
#[derive(Debug, PartialEq)]
pub enum CredentialLocation {
    Env(String),
    PathFromEnv(String),
    Dynamic(String),
    Path(String),
    Sdk,
    NoKey,
}

/// A credential that was looked up.
#[derive(Debug)]
pub enum Credential<K> {
    Static(K),
    FileContents(K),
    Dynamic(String),
    Sdk,
    NoKey,
    Missing,
}

/// The location that is used where a configuration names none.
pub fn default_api_key_location() -> (location: CredentialLocation)
    ensures
        location matches CredentialLocation::Env(name) && name@ == "OLLAMA_API_KEY"@,
{
    CredentialLocation::Env("OLLAMA_API_KEY".to_owned())
}

/// How Ollama is to be authenticated with: by one key, by a key that each request brings along
/// under a name, or not at all.
#[derive(Debug)]
pub enum OllamaCredentials<K> {
    Static(K),
    Dynamic(String),
    NoKey,
}

impl<K: Clone> Clone for OllamaCredentials<K> {
    fn clone(&self) -> (copy: Self)
        ensures
            match (*self, copy) {
                (OllamaCredentials::Static(key), OllamaCredentials::Static(copied)) => cloned(
                    key,
                    copied,
                ),
                (OllamaCredentials::Dynamic(name), OllamaCredentials::Dynamic(copied)) => copied
                    == name,
                (OllamaCredentials::NoKey, OllamaCredentials::NoKey) => true,
                _ => false,
            },
    {
        match self {
            OllamaCredentials::Static(key) => OllamaCredentials::Static(key.clone()),
            OllamaCredentials::Dynamic(name) => OllamaCredentials::Dynamic(name.clone()),
            OllamaCredentials::NoKey => OllamaCredentials::NoKey,
        }
    }
}

/// The credentials that a looked-up credential stands for. A missing key counts as none; a key
/// that is kept in a file or by an SDK is of no use to Ollama.
pub open spec fn accepted_credentials<K>(credential: Credential<K>) -> Result<
    OllamaCredentials<K>,
    ErrorModel,
> {
    match credential {
        Credential::Static(key) => Ok(OllamaCredentials::Static(key)),
        Credential::Dynamic(key_name) => Ok(OllamaCredentials::Dynamic(key_name)),
        Credential::NoKey => Ok(OllamaCredentials::NoKey),
        Credential::Missing => Ok(OllamaCredentials::NoKey),
        _ => Err(
            ErrorModel::Config { message: "Invalid api_key_location for Ollama provider"@ },
        ),
    }
}

impl<K> TryFrom<Credential<K>> for OllamaCredentials<K> {
    type Error = Error;

    fn try_from(credential: Credential<K>) -> (credentials: Result<Self, Error>)
        ensures
            match credentials {
                Ok(credentials) => accepted_credentials(credential) == Ok::<
                    OllamaCredentials<K>,
                    ErrorModel,
                >(credentials),
                Err(error) => accepted_credentials(credential) == Err::<
                    OllamaCredentials<K>,
                    ErrorModel,
                >(error.deep_view()),
            },
    {
        match credential {
            Credential::Static(key) => Ok(OllamaCredentials::Static(key)),
            Credential::Dynamic(key_name) => Ok(OllamaCredentials::Dynamic(key_name)),
            Credential::NoKey => Ok(OllamaCredentials::NoKey),
            Credential::Missing => Ok(OllamaCredentials::NoKey),
            _ => Err(
                Error::new(
                    ErrorDetails::Config {
                        message: "Invalid api_key_location for Ollama provider".to_owned(),
                    },
                ),
            ),
        }
    }
}

// `try_from` states what it returns itself, over models.
impl<K> vstd::std_specs::convert::TryFromSpecImpl<Credential<K>> for OllamaCredentials<K> {
    open spec fn obeys_try_from_spec() -> bool {
        false
    }

    open spec fn try_from_spec(credential: Credential<K>) -> Result<Self, Error> {
        arbitrary()
    }
}

/// The keys that a request brings along, each under its name.
#[verifier::reject_recursive_types(K)]
pub struct InferenceCredentials<K> {
    keys: StringHashMap<K>,
}

impl<K> View for InferenceCredentials<K> {
    type V = Map<Seq<char>, K>;

    closed spec fn view(&self) -> Map<Seq<char>, K> {
        self.keys@
    }
}

impl<K> InferenceCredentials<K> {
    pub fn new() -> (credentials: Self)
        ensures
            credentials@ == Map::<Seq<char>, K>::empty(),
    {
        InferenceCredentials { keys: StringHashMap::new() }
    }

    /// Puts a key under a name, in place of any that was there.
    pub fn insert(&mut self, name: String, key: K)
        ensures
            final(self)@ == old(self)@.insert(name@, key),
    {
        self.keys.insert(name, key);
    }

    pub fn get<'a>(&'a self, name: &str) -> (key: Option<&'a K>)
        ensures
            match key {
                Some(key) => self@.contains_key(name@) && *key == self@[name@],
                None => !self@.contains_key(name@),
            },
    {
        self.keys.get(name)
    }
}

impl<K> OllamaCredentials<K> {
    /// The key that a request with the keys `dynamic_api_keys` uses, if it needs one.
    pub open spec fn api_key(self, dynamic_api_keys: Map<Seq<char>, K>) -> Result<
        Option<K>,
        ErrorModel,
    > {
        match self {
            OllamaCredentials::Static(key) => Ok(Some(key)),
            OllamaCredentials::Dynamic(key_name) => if dynamic_api_keys.contains_key(key_name@) {
                Ok(Some(dynamic_api_keys[key_name@]))
            } else {
                Err(
                    ErrorModel::ApiKeyMissing {
                        provider_name: PROVIDER_NAME@,
                        message: "Dynamic api key `"@ + key_name@ + "` is missing"@,
                    },
                )
            },
            OllamaCredentials::NoKey => Ok(None),
        }
    }

    pub fn get_api_key<'a>(&'a self, dynamic_api_keys: &'a InferenceCredentials<K>) -> (key: Result<
        Option<&'a K>,
        Error,
    >)
        ensures
            match (key, self.api_key(dynamic_api_keys@)) {
                (Ok(Some(key)), Ok(Some(model))) => *key == model,
                (Ok(None), Ok(None)) => true,
                (Err(error), Err(model)) => error.deep_view() == model,
                _ => false,
            },
    {
        match self {
            OllamaCredentials::Static(key) => Ok(Some(key)),
            OllamaCredentials::Dynamic(key_name) => match dynamic_api_keys.get(key_name.as_str()) {
                Some(key) => Ok(Some(key)),
                None => {
                    let start = join("Dynamic api key `", key_name.as_str());
                    Err(
                        Error::new(
                            ErrorDetails::ApiKeyMissing {
                                provider_name: PROVIDER_NAME.to_owned(),
                                message: join(start.as_str(), "` is missing"),
                            },
                        ),
                    )
                },
            },
            OllamaCredentials::NoKey => Ok(None),
        }
    }
}

/// How a new provider comes by its credentials.
#[derive(Debug)]
pub enum CredentialPlan<K> {
    /// These are the ones.
    Ready(OllamaCredentials<K>),
    /// They have to be looked up. What is found at the default location is kept for the next
    /// provider.
    Load { location: CredentialLocation, keep_as_default: bool },
}

/// Decides how a new provider comes by its credentials. A configured location is always looked
/// up. Without one the credentials of the default location are used, which are looked up once:
/// `cached_default` holds them if that has happened.
pub fn plan_credentials<K>(
    api_key_location: Option<CredentialLocation>,
    cached_default: Option<OllamaCredentials<K>>,
) -> (plan: CredentialPlan<K>)
    ensures
        match (api_key_location, cached_default) {
            (Some(configured), _) => plan == (CredentialPlan::<K>::Load {
                location: configured,
                keep_as_default: false,
            }),
            (None, Some(cached)) => plan == CredentialPlan::Ready(cached),
            (None, None) => plan matches CredentialPlan::Load {
                location: CredentialLocation::Env(name),
                keep_as_default,
            } && name@ == "OLLAMA_API_KEY"@ && keep_as_default,
        },
{
    match api_key_location {
        Some(location) => CredentialPlan::Load { location, keep_as_default: false },
        None => match cached_default {
            Some(credentials) => CredentialPlan::Ready(credentials),
            None => CredentialPlan::Load {
                location: default_api_key_location(),
                keep_as_default: true,
            },
        },
    }
}

} // verus!
