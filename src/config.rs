use std::sync::Arc;

use hyper_util::client::legacy::connect::dns::GaiResolver;
use hyper_util::client::legacy::connect::HttpConnector;
use hyper_util::client::legacy::Client as HyperClient;
use hyper_util::rt::TokioExecutor;
use vstd::prelude::*;

use crate::application::Application;
use crate::authentication::Authentication;
use crate::background_task::BackgroundTask;
use crate::endpoint::Endpoint;
use crate::event_type::EventType;
use crate::integration::Integration;
use crate::message::Message;
use crate::message_attempt::MessageAttempt;
use crate::operational_webhook_endpoint::OperationalWebhookEndpoint;
use crate::region::{default_base_url, region_of, region_url};
use crate::statistics::Statistics;

verus! {

#[verifier::external_type_specification]
#[verifier::external_body]
#[verifier::reject_recursive_types(C)]
#[verifier::reject_recursive_types(B)]
pub struct ExHyperClient<C, B>(HyperClient<C, B>);

#[verifier::external_type_specification]
#[verifier::external_body]
#[verifier::reject_recursive_types(R)]
pub struct ExHttpConnector<R>(HttpConnector<R>);

#[verifier::external_type_specification]
#[verifier::external_body]
pub struct ExGaiResolver(GaiResolver);

/// The HTTP transport shared by every configuration derived from one client.
pub type Transport = HyperClient<HttpConnector, String>;

/// Relies on hyper_util's `Client::builder(TokioExecutor::new()).build_http()`:
/// a pooled client over hyper_util's plain HTTP connector, spawning its
/// background work on tokio; building it performs no I/O.
#[verifier::external_body]
fn new_transport() -> (r: Transport) {
    HyperClient::builder(TokioExecutor::new()).build_http()
}

/// The user-agent attached to every request.
pub const USER_AGENT: &'static str = "svix-libs/0.1.0/rust";

/// Default request timeout, in milliseconds.
pub const DEFAULT_TIMEOUT_MS: u64 = 15000;

/// Settings shared by every request of one client.
pub struct Configuration {
    pub base_path: String,
    pub user_agent: Option<String>,
    pub bearer_access_token: Option<String>,
    /// Request timeout in milliseconds, from connecting until the response
    /// body has finished; `None` means requests never time out.
    pub timeout: Option<u64>,
    pub client: Arc<Transport>,
}

/// The characters of each string in an optional string.
pub open spec fn view_opt(o: Option<String>) -> Option<Seq<char>> {
    match o {
        Some(s) => Some(s@),
        None => None,
    }
}

/// The base URL used for `token`: the configured server URL when there is
/// one, otherwise the host of the region the token names.
pub open spec fn resolved_base_url(server_url: Option<String>, token: Seq<char>) -> Seq<char> {
    match server_url {
        Some(u) => u@,
        None => region_url(region_of(token)),
    }
}

/// An explicit server URL decides the base URL, whatever region the token
/// names.
pub proof fn lemma_server_url_wins(server_url: String, token: Seq<char>)
    ensures
        resolved_base_url(Some(server_url), token) == server_url@,
{
}

fn clone_opt(o: &Option<String>) -> (r: Option<String>)
    ensures
        view_opt(r) == view_opt(*o),
{
    match o {
        Some(s) => Some(s.clone()),
        None => None,
    }
}

pub struct SvixOptions {
    pub debug: bool,
    pub server_url: Option<String>,
    /// Timeout for HTTP requests, in milliseconds.
    ///
    /// The timeout is applied from when the request starts connecting until
    /// the response body has finished. If set to `None`, requests never time
    /// out.
    ///
    /// Default: 15 seconds.
    pub timeout: Option<u64>,
}

impl Default for SvixOptions {
    fn default() -> (r: Self)
        ensures
            !r.debug,
            r.server_url is None,
            r.timeout == Some(DEFAULT_TIMEOUT_MS),
    {
        SvixOptions { debug: false, server_url: None, timeout: Some(DEFAULT_TIMEOUT_MS) }
    }
}

/// The options in effect when `options` is given, or the defaults.
pub open spec fn effective_options(options: Option<SvixOptions>) -> SvixOptions {
    match options {
        Some(o) => o,
        None => SvixOptions { debug: false, server_url: None, timeout: Some(DEFAULT_TIMEOUT_MS) },
    }
}

/// API client.
#[derive(Clone)]
pub struct Svix {
    cfg: Arc<Configuration>,
    server_url: Option<String>,
}

impl Svix {
    /// The configuration that requests of this client carry.
    pub closed spec fn config(&self) -> Configuration {
        *self.cfg
    }

    /// The server URL given at construction, which overrides the region of
    /// every token.
    pub closed spec fn server_url(&self) -> Option<String> {
        self.server_url
    }

    /// Builds a client for `token`. The base URL is `options.server_url` when
    /// given, and otherwise the host of the region that the token names.
    pub fn new(token: String, options: Option<SvixOptions>) -> (r: Self)
        ensures
            view_opt(r.server_url()) == view_opt(effective_options(options).server_url),
            r.config().timeout == effective_options(options).timeout,
            view_opt(r.config().user_agent) == Some(USER_AGENT@),
            view_opt(r.config().bearer_access_token) == Some(token@),
            r.config().base_path@ == resolved_base_url(effective_options(options).server_url, token@),
    {
        let options = match options {
            Some(o) => o,
            None => SvixOptions::default(),
        };
        let cfg = Arc::new(
            Configuration {
                user_agent: Some(USER_AGENT.to_owned()),
                client: Arc::new(new_transport()),
                timeout: options.timeout,
                base_path: String::new(),
                bearer_access_token: None,
            },
        );
        let svix = Svix { cfg, server_url: options.server_url };
        svix.with_token(token)
    }

    /// Creates a new client with a different token, re-using all of the
    /// settings and the transport of this one.
    ///
    /// This can be used to change the token without incurring the cost of
    /// TLS initialization.
    pub fn with_token(&self, token: String) -> (r: Self)
        ensures
            view_opt(r.server_url()) == view_opt(self.server_url()),
            r.config().timeout == self.config().timeout,
            view_opt(r.config().user_agent) == view_opt(self.config().user_agent),
            r.config().client == self.config().client,
            view_opt(r.config().bearer_access_token) == Some(token@),
            r.config().base_path@ == resolved_base_url(self.server_url(), token@),
    {
        let base_path = match &self.server_url {
            Some(u) => u.clone(),
            None => default_base_url(token.as_str()),
        };
        let cfg = Arc::new(
            Configuration {
                base_path,
                user_agent: clone_opt(&self.cfg.user_agent),
                bearer_access_token: Some(token),
                client: self.cfg.client.clone(),
                timeout: self.cfg.timeout,
            },
        );
        Svix { cfg, server_url: clone_opt(&self.server_url) }
    }

    pub fn authentication(&self) -> (r: Authentication<'_>)
        ensures
            r.config() == self.config(),
    {
        Authentication::new(&self.cfg)
    }

    pub fn application(&self) -> (r: Application<'_>)
        ensures
            r.config() == self.config(),
    {
        Application::new(&self.cfg)
    }

    pub fn endpoint(&self) -> (r: Endpoint<'_>)
        ensures
            r.config() == self.config(),
    {
        Endpoint::new(&self.cfg)
    }

    pub fn integration(&self) -> (r: Integration<'_>)
        ensures
            r.config() == self.config(),
    {
        Integration::new(&self.cfg)
    }

    pub fn event_type(&self) -> (r: EventType<'_>)
        ensures
            r.config() == self.config(),
    {
        EventType::new(&self.cfg)
    }

    pub fn message(&self) -> (r: Message<'_>)
        ensures
            r.config() == self.config(),
    {
        Message::new(&self.cfg)
    }

    pub fn message_attempt(&self) -> (r: MessageAttempt<'_>)
        ensures
            r.config() == self.config(),
    {
        MessageAttempt::new(&self.cfg)
    }

    pub fn operational_webhook_endpoint(&self) -> (r: OperationalWebhookEndpoint<'_>)
        ensures
            r.config() == self.config(),
    {
        OperationalWebhookEndpoint::new(&self.cfg)
    }

    pub fn background_task(&self) -> (r: BackgroundTask<'_>)
        ensures
            r.config() == self.config(),
    {
        BackgroundTask::new(&self.cfg)
    }

    pub fn statistics(&self) -> (r: Statistics<'_>)
        ensures
            r.config() == self.config(),
    {
        Statistics::new(&self.cfg)
    }

    /// The configuration that requests of this client carry.
    pub fn cfg(&self) -> (r: &Configuration)
        ensures
            *r == self.config(),
    {
        &self.cfg
    }
}

} // verus!
