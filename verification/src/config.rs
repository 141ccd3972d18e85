//! The bot's configuration, as read once at startup.

use vstd::prelude::*;

verus! {

/// The configuration, as mathematical values.
pub struct ConfigView {
    pub bot_name: Seq<char>,
    pub redis_url: Option<Seq<char>>,
    pub opentelemetry_endpoint: Option<Seq<char>>,
}

/// The bot's name, the endpoint of the key-value store, if the cache is to be
/// used, and the endpoint of the tracing agent, if it is not the default one.
#[derive(Debug)]
pub struct Config {
    bot_name: String,
    redis_url: Option<String>,
    opentelemetry_endpoint: Option<String>,
}

impl View for Config {
    type V = ConfigView;

    closed spec fn view(&self) -> ConfigView {
        ConfigView {
            bot_name: self.bot_name@,
            redis_url: match self.redis_url {
                Some(url) => Some(url@),
                None => None,
            },
            opentelemetry_endpoint: match self.opentelemetry_endpoint {
                Some(endpoint) => Some(endpoint@),
                None => None,
            },
        }
    }
}

/// The tracing agent's endpoint where none is configured.
pub open spec fn default_opentelemetry_endpoint() -> Seq<char> {
    "127.0.0.1:6831"@
}

impl Config {
    /// A configuration of these values.
    pub fn new(
        bot_name: String,
        redis_url: Option<String>,
        opentelemetry_endpoint: Option<String>,
    ) -> (config: Config)
        ensures
            config@ == (ConfigView {
                bot_name: bot_name@,
                redis_url: match redis_url {
                    Some(url) => Some(url@),
                    None => None,
                },
                opentelemetry_endpoint: match opentelemetry_endpoint {
                    Some(endpoint) => Some(endpoint@),
                    None => None,
                },
            }),
    {
        Config { bot_name, redis_url, opentelemetry_endpoint }
    }

    /// The bot's name.
    pub fn bot_name(&self) -> (name: &str)
        ensures
            name@ == self@.bot_name,
    {
        self.bot_name.as_str()
    }

    /// The endpoint of the key-value store. Without one the cache is
    /// disabled.
    pub fn redis_url(&self) -> (url: Option<&str>)
        ensures
            match url {
                Some(text) => self@.redis_url == Some(text@),
                None => self@.redis_url is None,
            },
    {
        match &self.redis_url {
            Some(url) => Some(url.as_str()),
            None => None,
        }
    }

    /// The endpoint of the tracing agent: the configured one, or
    /// `127.0.0.1:6831`.
    pub fn opentelemetry_endpoint(&self) -> (endpoint: &str)
        ensures
            endpoint@ == match self@.opentelemetry_endpoint {
                Some(configured) => configured,
                None => default_opentelemetry_endpoint(),
            },
    {
        match &self.opentelemetry_endpoint {
            Some(endpoint) => endpoint.as_str(),
            None => "127.0.0.1:6831",
        }
    }
}

} // verus!
