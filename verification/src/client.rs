//! Building a client: the registry of hosts, the credentials and the
//! settings.

use vstd::prelude::*;
use vstd::seq_lib::*;
use vstd::string::*;
use base64::Engine;
use crate::config::{is_built_from, RqliteClientConfig, RqliteClientConfigBuilder, Scheme};
use crate::error::ClientBuilderError;
use crate::fallback::strategy::{find_host, host_names};
use vstd::std_specs::convert::FromSpec;
use crate::fallback::{FallbackCount, Strategy};
use crate::request::{query_pairs, RqliteQueryParam, RqliteQueryParams};
use crate::text::join;

verus! {

/// The base64 text, in the standard alphabet and with padding, of the UTF-8
/// bytes of `text`.
pub uninterp spec fn base64_standard(text: Seq<char>) -> Seq<char>;

/// Calls `base64::Engine::encode` of `base64::engine::general_purpose::STANDARD`:
/// the result is the standard base64 text of the argument's bytes. The call
/// gives up only on an input of more than three quarters of the address
/// space, which no string in memory reaches.
#[verifier::external_body]
fn base64_encode(text: &str) -> (encoded: String)
    ensures
        encoded@ == base64_standard(text@),
{
    base64::engine::general_purpose::STANDARD.encode(text)
}

/// The number of seconds after which a request is given up.
pub const REQUEST_TIMEOUT_SECS: u64 = 5;

/// The value of the `authorization` header for basic authentication with
/// `credentials`, which are the base64 text of `user:password`.
pub fn basic_authorization(credentials: &str) -> (value: String)
    ensures
        value@ == "Basic "@ + credentials@,
{
    join("Basic ", credentials)
}

/// The headers that every request of a client carries: the content type,
/// and the authorization when there are credentials.
pub open spec fn default_headers(credentials: Option<Seq<char>>) -> Seq<(Seq<char>, Seq<char>)> {
    match credentials {
        Some(credentials) => seq![
            ("content-type"@, "application/json"@),
            ("authorization"@, "Basic "@ + credentials),
        ],
        None => seq![("content-type"@, "application/json"@)],
    }
}

/// Collects what a client is made of.
pub struct RqliteClientBuilder {
    hosts: Vec<String>,
    config: RqliteClientConfigBuilder,
    basic_auth: Option<String>,
}

/// What a client is made of, in plain values: the transport is set up from
/// the headers, the timeout and the restriction to HTTPS.
pub struct RqliteClient {
    /// The registry: the known hosts, the head being the one to try first.
    pub hosts: Vec<String>,
    /// The settings.
    pub config: RqliteClientConfig,
    /// The headers of every request, as pairs of name and value.
    pub headers: Vec<(String, String)>,
    /// The number of seconds after which a request is given up.
    pub timeout_secs: u64,
    /// Whether the transport refuses anything but HTTPS.
    pub https_only: bool,
}

impl RqliteClientBuilder {
    #[verifier::type_invariant]
    spec fn hosts_are_unique(self) -> bool {
        host_names(self.hosts@).no_duplicates()
    }

    /// The hosts given so far, in the order given.
    pub closed spec fn hosts(self) -> Seq<Seq<char>> {
        host_names(self.hosts@)
    }

    /// The credentials, as the base64 text of `user:password`.
    pub closed spec fn credentials(self) -> Option<Seq<char>> {
        match self.basic_auth {
            Some(credentials) => Some(credentials@),
            None => None,
        }
    }

    /// The settings given so far.
    pub closed spec fn config(self) -> RqliteClientConfigBuilder {
        self.config
    }

    /// A builder without hosts, credentials or settings.
    #[must_use]
    pub fn new() -> (builder: RqliteClientBuilder)
        ensures
            builder.hosts() == Seq::<Seq<char>>::empty(),
            builder.credentials() is None,
            builder.config().default_query_params is None,
            builder.config().scheme is None,
            builder.config().fallback_strategy is None,
            builder.config().fallback_count is None,
            !builder.config().fallback_persistence,
    {
        let builder = RqliteClientBuilder {
            hosts: Vec::new(),
            config: RqliteClientConfigBuilder::default(),
            basic_auth: None,
        };
        assert(builder.hosts() =~= Seq::<Seq<char>>::empty());
        builder
    }

    /// The hosts given so far.
    pub fn known_hosts(&self) -> (hosts: &Vec<String>)
        ensures
            host_names(hosts@) == self.hosts(),
            self.hosts().no_duplicates(),
    {
        proof {
            use_type_invariant(self);
        }
        &self.hosts
    }

    /// Sets the credentials for basic authentication.
    #[must_use]
    pub fn auth(self, user: &str, password: &str) -> (builder: RqliteClientBuilder)
        ensures
            builder.credentials() == Some(base64_standard(user@ + ":"@ + password@)),
            builder.hosts() == self.hosts(),
            builder.config() == self.config(),
    {
        proof {
            use_type_invariant(&self);
        }
        let mut plain = join(user, ":");
        plain.append(password);
        let mut builder = self;
        builder.basic_auth = Some(base64_encode(plain.as_str()));
        builder
    }

    /// Adds a host, as `hostname:port` and without a scheme. A host that is
    /// known already is not added again.
    #[must_use]
    pub fn known_host(self, host: &str) -> (builder: RqliteClientBuilder)
        ensures
            self.hosts().contains(host@) ==> builder.hosts() == self.hosts(),
            !self.hosts().contains(host@) ==> builder.hosts() == self.hosts().push(host@),
            builder.hosts().no_duplicates(),
            builder.credentials() == self.credentials(),
            builder.config() == self.config(),
    {
        proof {
            use_type_invariant(&self);
            host_names(self.hosts@).index_of_first_ensures(host@);
        }
        let mut builder = self;
        let ghost before = host_names(builder.hosts@);
        if find_host(&builder.hosts, host).is_none() {
            let mut hosts = builder.hosts;
            hosts.push(host.to_owned());
            assert(host_names(hosts@) =~= before.push(host@));
            builder.hosts = hosts;
        }
        builder
    }

    /// Sets the parameters that every request is sent with.
    #[must_use]
    pub fn default_query_params(self, params: Vec<RqliteQueryParam>) -> (builder:
        RqliteClientBuilder)
        ensures
            builder.config().default_query_params == Some(RqliteQueryParams(params)),
            builder.config().scheme == self.config().scheme,
            builder.config().fallback_strategy == self.config().fallback_strategy,
            builder.config().fallback_count == self.config().fallback_count,
            builder.config().fallback_persistence == self.config().fallback_persistence,
            builder.hosts() == self.hosts(),
            builder.credentials() == self.credentials(),
    {
        proof {
            use_type_invariant(&self);
        }
        let RqliteClientBuilder { hosts, config, basic_auth } = self;
        RqliteClientBuilder { hosts, config: config.default_query_params(params), basic_auth }
    }

    /// Sets the number of times that a request may switch to another host.
    #[must_use]
    pub fn fallback_count(self, count: FallbackCount) -> (builder: RqliteClientBuilder)
        ensures
            builder.config().fallback_count == Some(count),
            builder.config().default_query_params == self.config().default_query_params,
            builder.config().scheme == self.config().scheme,
            builder.config().fallback_strategy == self.config().fallback_strategy,
            builder.config().fallback_persistence == self.config().fallback_persistence,
            builder.hosts() == self.hosts(),
            builder.credentials() == self.credentials(),
    {
        proof {
            use_type_invariant(&self);
        }
        let RqliteClientBuilder { hosts, config, basic_auth } = self;
        RqliteClientBuilder { hosts, config: config.fallback_count(count), basic_auth }
    }

    /// Sets the strategy that picks the host to switch to: one of the
    /// library's, or one that was written elsewhere, in a box. Without one
    /// the client uses round robin.
    #[must_use]
    pub fn fallback_strategy<S>(self, strategy: S) -> (builder: RqliteClientBuilder)
        where
            Strategy: From<S>,
        ensures
            builder.config().fallback_strategy matches Some(held) && (<Strategy as FromSpec<
                S,
            >>::obeys_from_spec() ==> held == <Strategy as FromSpec<S>>::from_spec(strategy)),
            builder.config().default_query_params == self.config().default_query_params,
            builder.config().scheme == self.config().scheme,
            builder.config().fallback_count == self.config().fallback_count,
            builder.config().fallback_persistence == self.config().fallback_persistence,
            builder.hosts() == self.hosts(),
            builder.credentials() == self.credentials(),
    {
        proof {
            use_type_invariant(&self);
        }
        let RqliteClientBuilder { hosts, config, basic_auth } = self;
        RqliteClientBuilder { hosts, config: config.fallback_strategy(strategy), basic_auth }
    }

    /// Sets whether the host that a request switched to stays the first to
    /// try for the requests that follow.
    #[must_use]
    pub fn fallback_persistence(self, persist: bool) -> (builder: RqliteClientBuilder)
        ensures
            builder.config().fallback_persistence == persist,
            builder.config().default_query_params == self.config().default_query_params,
            builder.config().scheme == self.config().scheme,
            builder.config().fallback_strategy == self.config().fallback_strategy,
            builder.config().fallback_count == self.config().fallback_count,
            builder.hosts() == self.hosts(),
            builder.credentials() == self.credentials(),
    {
        proof {
            use_type_invariant(&self);
        }
        let RqliteClientBuilder { hosts, config, basic_auth } = self;
        RqliteClientBuilder { hosts, config: config.fallback_persistence(persist), basic_auth }
    }

    /// Sets the scheme.
    #[must_use]
    pub fn scheme(self, scheme: Scheme) -> (builder: RqliteClientBuilder)
        ensures
            builder.config().scheme == Some(scheme),
            builder.config().default_query_params == self.config().default_query_params,
            builder.config().fallback_strategy == self.config().fallback_strategy,
            builder.config().fallback_count == self.config().fallback_count,
            builder.config().fallback_persistence == self.config().fallback_persistence,
            builder.hosts() == self.hosts(),
            builder.credentials() == self.credentials(),
    {
        proof {
            use_type_invariant(&self);
        }
        let RqliteClientBuilder { hosts, config, basic_auth } = self;
        RqliteClientBuilder { hosts, config: config.scheme(scheme), basic_auth }
    }

    /// Builds the client. It fails when no host was given, and only then.
    pub fn build(self) -> (client: Result<RqliteClient, ClientBuilderError>)
        ensures
            self.hosts().len() == 0 <==> client is Err,
            client matches Err(error) ==> error is NoHostsProvided,
            client matches Ok(client) ==> {
                &&& host_names(client.hosts@) == self.hosts()
                &&& client.hosts@.len() > 0
                &&& host_names(client.hosts@).no_duplicates()
                &&& is_built_from(client.config, self.config())
                &&& query_pairs(client.headers@) == default_headers(self.credentials())
                &&& client.timeout_secs == REQUEST_TIMEOUT_SECS
                &&& client.https_only == (self.config().scheme == Some(Scheme::Https))
            },
    {
        proof {
            use_type_invariant(&self);
        }
        let RqliteClientBuilder { hosts, config, basic_auth } = self;
        if hosts.is_empty() {
            return Err(ClientBuilderError::NoHostsProvided);
        }
        let mut headers: Vec<(String, String)> = Vec::new();
        headers.push((String::from_str("content-type"), String::from_str("application/json")));
        if let Some(credentials) = basic_auth {
            headers.push(
                (String::from_str("authorization"), basic_authorization(credentials.as_str())),
            );
        }
        assert(query_pairs(headers@) =~= default_headers(self.credentials()));
        let https_only = match config.scheme {
            Some(Scheme::Https) => true,
            _ => false,
        };
        Ok(
            RqliteClient {
                hosts,
                config: config.build(),
                headers,
                timeout_secs: REQUEST_TIMEOUT_SECS,
                https_only,
            },
        )
    }
}

impl Default for RqliteClientBuilder {
    /// A builder without hosts, credentials or settings.
    fn default() -> (builder: RqliteClientBuilder)
        ensures
            builder.hosts() == Seq::<Seq<char>>::empty(),
            builder.credentials() is None,
            builder.config().default_query_params is None,
            builder.config().scheme is None,
            builder.config().fallback_strategy is None,
            builder.config().fallback_count is None,
            !builder.config().fallback_persistence,
    {
        RqliteClientBuilder::new()
    }
}

} // verus!
