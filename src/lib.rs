//! Typed client for a webhook-management REST API.
//!
//! A [`Svix`] client holds one immutable [`Configuration`]: the base URL
//! resolved from the token's region (or an explicit server URL), the bearer
//! token, the user-agent, the timeout and a shared HTTP transport. Each
//! resource family has a sub-client that turns the caller's arguments and
//! options into a [`Request`]: the configuration together with the [`Call`]
//! that names the remote operation and carries its wire parameters.

pub mod application;
pub mod authentication;
pub mod background_task;
pub mod call;
pub mod config;
pub mod conventions;
pub mod endpoint;
pub mod event_type;
pub mod integration;
pub mod message;
pub mod message_attempt;
pub mod operational_webhook_endpoint;
pub mod options;
pub mod region;
pub mod statistics;

pub use application::{Application, ApplicationListOptions};
pub use authentication::Authentication;
pub use background_task::{BackgroundTask, BackgroundTaskListOptions};
pub use call::{discard_body, Call, Error, PostOptions, Request};
pub use config::{Configuration, Svix, SvixOptions, Transport};
pub use endpoint::{Endpoint, EndpointListOptions, EndpointStatsOptions};
pub use event_type::{EventType, EventTypeListOptions};
pub use integration::{Integration, IntegrationListOptions};
pub use message::{Message, MessageListOptions};
pub use message_attempt::{
    ListOptions, MessageAttempt, MessageAttemptListByEndpointOptions, MessageAttemptListOptions,
};
pub use operational_webhook_endpoint::{
    OperationalWebhookEndpoint, OperationalWebhookEndpointListOptions,
};
pub use options::{
    BackgroundTaskStatus, BackgroundTaskType, MessageStatus, Ordering, StatusCodeClass,
};
pub use region::{default_base_url, Region};
pub use statistics::{AggregateAppStatsOptions, Statistics};
