//! NASA's open services. They share one key, settled once when the client
//! is made.

use vstd::prelude::*;

pub mod apod;
pub mod neo;
pub mod tle;

verus! {

/// The key that is used where none is configured.
pub open spec fn demo_key() -> Seq<char> {
    "DEMO_KEY"@
}

/// The key that a configuration gives: the configured text where there is
/// one and it is not empty, the fallback otherwise.
pub open spec fn resolved(configured: Option<Seq<char>>, fallback: Seq<char>) -> Seq<char> {
    match configured {
        Some(key) => if key.len() > 0 { key } else { fallback },
        None => fallback,
    }
}

/// Settles the key. Nothing can fail here: no configuration is an expected
/// state, and gives the fallback.
pub fn resolve(configured: Option<String>, fallback: &str) -> (key: String)
    ensures
        key@ == resolved(
            match configured {
                Some(k) => Some(k@),
                None => None,
            },
            fallback@,
        ),
        fallback@.len() > 0 ==> key@.len() > 0,
{
    match configured {
        Some(k) => if k.as_str().is_empty() {
            fallback.to_owned()
        } else {
            k
        },
        None => fallback.to_owned(),
    }
}

/// How a client is known to NASA's services.
#[derive(Debug, Clone)]
pub enum NasaAuth {
    /// The shared key for trials.
    Demo(String),
    /// A key of one's own.
    ApiKey(String),
}

impl NasaAuth {
    /// The key itself.
    pub open spec fn key_text(self) -> Seq<char> {
        match self {
            NasaAuth::Demo(key) => key@,
            NasaAuth::ApiKey(key) => key@,
        }
    }

    /// The key of a configuration: the configured key where it is there and
    /// not empty, the demo key otherwise.
    pub fn from_configured(configured: Option<String>) -> (auth: NasaAuth)
        ensures
            auth.key_text() == resolved(
                match configured {
                    Some(k) => Some(k@),
                    None => None,
                },
                demo_key(),
            ),
            auth is ApiKey <==> (configured is Some && configured.unwrap()@.len() > 0),
    {
        match configured {
            Some(k) => if k.as_str().is_empty() {
                NasaAuth::default()
            } else {
                NasaAuth::ApiKey(k)
            },
            None => NasaAuth::default(),
        }
    }

    /// The key itself.
    pub fn key(&self) -> (key: &String)
        ensures
            key@ == self.key_text(),
    {
        match self {
            NasaAuth::Demo(key) => key,
            NasaAuth::ApiKey(key) => key,
        }
    }
}

impl Default for NasaAuth {
    fn default() -> (auth: NasaAuth)
        ensures
            auth is Demo,
            auth.key_text() == demo_key(),
    {
        NasaAuth::Demo("DEMO_KEY".to_owned())
    }
}

/// A client of NASA's services, with its key.
#[derive(Debug, Clone)]
pub struct NasaClient {
    pub api_key: String,
}

impl NasaClient {
    /// A client with the key that the configuration gives. The key is
    /// settled here, once, and every request of this client carries it.
    pub fn new(configured: Option<String>) -> (client: NasaClient)
        ensures
            client.api_key@ == resolved(
                match configured {
                    Some(k) => Some(k@),
                    None => None,
                },
                demo_key(),
            ),
            client.api_key@.len() > 0,
    {
        proof {
            reveal_strlit("DEMO_KEY");
        }
        NasaClient { api_key: resolve(configured, "DEMO_KEY") }
    }

    /// The photo of the day.
    pub fn apod(&self) -> (handler: apod::ApodHandler)
        ensures
            handler.api_key@ == self.api_key@,
    {
        apod::ApodHandler { api_key: self.api_key.clone() }
    }

    /// Near-earth objects.
    pub fn neo(&self) -> (handler: neo::NeoHandler)
        ensures
            handler.api_key@ == self.api_key@,
    {
        neo::NeoHandler { api_key: self.api_key.clone() }
    }

    /// Two-line elements of satellites. This service asks for no key.
    pub fn tle(&self) -> (handler: tle::TLEHandler) {
        tle::TLEHandler {  }
    }
}

} // verus!
