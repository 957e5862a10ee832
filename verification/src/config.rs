//! What a client is configured with.

use vstd::prelude::*;
use vstd::string::*;
use vstd::std_specs::convert::FromSpec;
use crate::fallback::{FallbackCount, RoundRobin, Strategy};
use crate::request::{RequestQueryParams, RqliteQueryParam, RqliteQueryParams};

verus! {

/// The scheme under which every host of the cluster is reached.
#[derive(Clone, Copy, Debug, PartialEq, Eq)]
pub enum Scheme {
    Http,
    Https,
}

impl Scheme {
    /// The scheme as it stands in a URL.
    pub open spec fn text(self) -> Seq<char> {
        match self {
            Scheme::Http => "http"@,
            Scheme::Https => "https"@,
        }
    }

    /// The scheme as it stands in a URL: `http` or `https`.
    pub fn to_string(&self) -> (text: String)
        ensures
            text@ == self.text(),
    {
        match self {
            Scheme::Http => String::from_str("http"),
            Scheme::Https => String::from_str("https"),
        }
    }
}

impl Default for Scheme {
    fn default() -> (scheme: Scheme)
        ensures
            scheme is Http,
    {
        Scheme::Http
    }
}

/// Collects the settings of a client; what is left unset gets its default
/// when the configuration is built.
pub struct RqliteClientConfigBuilder {
    pub default_query_params: Option<RqliteQueryParams>,
    pub scheme: Option<Scheme>,
    pub fallback_strategy: Option<Strategy>,
    pub fallback_count: Option<FallbackCount>,
    pub fallback_persistence: bool,
}

impl Default for RqliteClientConfigBuilder {
    /// Nothing set, and fallbacks do not persist.
    fn default() -> (builder: RqliteClientConfigBuilder)
        ensures
            builder.default_query_params is None,
            builder.scheme is None,
            builder.fallback_strategy is None,
            builder.fallback_count is None,
            !builder.fallback_persistence,
    {
        RqliteClientConfigBuilder {
            default_query_params: None,
            scheme: None,
            fallback_strategy: None,
            fallback_count: None,
            fallback_persistence: false,
        }
    }
}

/// Whether `config` is what `builder` builds: what was set, and for the rest
/// `http`, round robin and as many fallbacks as there are hosts.
///
/// The default parameters are those that were set and no others: blobs
/// arrive as base64 text, which the library decodes, so that `blob_array`
/// is sent only where it was asked for.
pub open spec fn is_built_from(
    config: RqliteClientConfig,
    builder: RqliteClientConfigBuilder,
) -> bool {
    &&& match builder.default_query_params {
        Some(params) => config.default_query_params matches Some(sent) && sent@ == params@
            && sent.flags() == params.flags(),
        None => config.default_query_params is None,
    }
    &&& config.scheme == match builder.scheme {
        Some(scheme) => scheme,
        None => Scheme::Http,
    }
    &&& config.fallback_count == match builder.fallback_count {
        Some(count) => count,
        None => FallbackCount::NumHosts,
    }
    &&& config.fallback_persistence == builder.fallback_persistence
    &&& config.fallback_strategy == match builder.fallback_strategy {
        Some(strategy) => strategy,
        None => Strategy::RoundRobin(RoundRobin),
    }
}

impl RqliteClientConfigBuilder {
    /// Sets the parameters that every request is sent with.
    pub fn default_query_params(self, params: Vec<RqliteQueryParam>) -> (builder:
        RqliteClientConfigBuilder)
        ensures
            builder.default_query_params == Some(RqliteQueryParams(params)),
            builder.scheme == self.scheme,
            builder.fallback_strategy == self.fallback_strategy,
            builder.fallback_count == self.fallback_count,
            builder.fallback_persistence == self.fallback_persistence,
    {
        let mut builder = self;
        builder.default_query_params = Some(RqliteQueryParams::from(params));
        builder
    }

    /// Sets the scheme.
    pub fn scheme(self, scheme: Scheme) -> (builder: RqliteClientConfigBuilder)
        ensures
            builder.scheme == Some(scheme),
            builder.default_query_params == self.default_query_params,
            builder.fallback_strategy == self.fallback_strategy,
            builder.fallback_count == self.fallback_count,
            builder.fallback_persistence == self.fallback_persistence,
    {
        let mut builder = self;
        builder.scheme = Some(scheme);
        builder
    }

    /// Sets the strategy that picks the host to fall back to: one of the
    /// library's, or one that was written elsewhere, in a box.
    pub fn fallback_strategy<S>(self, strategy: S) -> (builder: RqliteClientConfigBuilder)
        where
            Strategy: From<S>,
        ensures
            builder.fallback_strategy matches Some(held) && (<Strategy as FromSpec<
                S,
            >>::obeys_from_spec() ==> held == <Strategy as FromSpec<S>>::from_spec(strategy)),
            builder.default_query_params == self.default_query_params,
            builder.scheme == self.scheme,
            builder.fallback_count == self.fallback_count,
            builder.fallback_persistence == self.fallback_persistence,
    {
        let mut builder = self;
        builder.fallback_strategy = Some(Strategy::from(strategy));
        builder
    }

    /// Sets the number of fallbacks that a request may make.
    pub fn fallback_count(self, count: FallbackCount) -> (builder: RqliteClientConfigBuilder)
        ensures
            builder.fallback_count == Some(count),
            builder.default_query_params == self.default_query_params,
            builder.scheme == self.scheme,
            builder.fallback_strategy == self.fallback_strategy,
            builder.fallback_persistence == self.fallback_persistence,
    {
        let mut builder = self;
        builder.fallback_count = Some(count);
        builder
    }

    /// Sets whether a fallback reorders the registry for the requests that
    /// follow.
    pub fn fallback_persistence(self, persistence: bool) -> (builder: RqliteClientConfigBuilder)
        ensures
            builder.fallback_persistence == persistence,
            builder.default_query_params == self.default_query_params,
            builder.scheme == self.scheme,
            builder.fallback_strategy == self.fallback_strategy,
            builder.fallback_count == self.fallback_count,
    {
        let mut builder = self;
        builder.fallback_persistence = persistence;
        builder
    }

    /// The configuration: what was set, and for the rest `http`, round
    /// robin, and as many fallbacks as there are hosts. No default
    /// parameter is added to those that were set.
    pub fn build(self) -> (config: RqliteClientConfig)
        ensures
            is_built_from(config, self),
    {
        let default_query_params = match self.default_query_params {
            Some(params) => Some(params.into_request_query_params()),
            None => None,
        };
        let scheme = match self.scheme {
            Some(scheme) => scheme,
            None => Scheme::Http,
        };
        let fallback_strategy = match self.fallback_strategy {
            Some(strategy) => strategy,
            None => Strategy::default(),
        };
        let fallback_count = match self.fallback_count {
            Some(count) => count,
            None => FallbackCount::default(),
        };
        RqliteClientConfig {
            default_query_params,
            scheme,
            fallback_strategy,
            fallback_count,
            fallback_persistence: self.fallback_persistence,
        }
    }
}

/// The settings of a client.
pub struct RqliteClientConfig {
    pub default_query_params: Option<RequestQueryParams>,
    pub scheme: Scheme,
    pub fallback_strategy: Strategy,
    pub fallback_count: FallbackCount,
    pub fallback_persistence: bool,
}

impl Default for RqliteClientConfig {
    /// No default parameters, `http`, round robin, as many fallbacks as
    /// there are hosts, and no persistence.
    fn default() -> (config: RqliteClientConfig)
        ensures
            config.default_query_params is None,
            config.scheme is Http,
            config.fallback_strategy is RoundRobin,
            config.fallback_count is NumHosts,
            !config.fallback_persistence,
    {
        RqliteClientConfig {
            default_query_params: None,
            scheme: Scheme::default(),
            fallback_strategy: Strategy::default(),
            fallback_count: FallbackCount::default(),
            fallback_persistence: false,
        }
    }
}

} // verus!
