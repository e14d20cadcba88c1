use vstd::prelude::*;

use crate::config::Configuration;
use crate::options::{
    BackgroundTaskStatus, BackgroundTaskType, MessageStatus, Ordering, StatusCodeClass,
};

verus! {

/// One remote operation of the API together with its wire parameters.
///
/// Identifiers are passed as given. Request bodies are the JSON documents of
/// the operation's input schema. Every optional parameter that is `None` is
/// left out of the request, so the server applies its own default.
#[derive(Clone, Debug, PartialEq, Eq)]
pub enum Call {
    AuthenticationDashboardAccess {
        app_id: String,
        idempotency_key: Option<String>,
    },
    AuthenticationAppPortalAccess {
        app_id: String,
        app_portal_access_in: String,
        idempotency_key: Option<String>,
    },
    AuthenticationLogout {
        idempotency_key: Option<String>,
    },
    ApplicationList {
        iterator: Option<String>,
        limit: Option<i32>,
        order: Option<Ordering>,
    },
    ApplicationCreate {
        application_in: String,
        idempotency_key: Option<String>,
        get_if_exists: Option<bool>,
    },
    ApplicationGet {
        app_id: String,
    },
    ApplicationUpdate {
        app_id: String,
        application_in: String,
    },
    ApplicationPatch {
        app_id: String,
        application_patch: String,
    },
    ApplicationDelete {
        app_id: String,
    },
    EndpointList {
        app_id: String,
        iterator: Option<String>,
        limit: Option<i32>,
        order: Option<Ordering>,
    },
    EndpointCreate {
        app_id: String,
        endpoint_in: String,
        idempotency_key: Option<String>,
    },
    EndpointGet {
        app_id: String,
        endpoint_id: String,
    },
    EndpointUpdate {
        app_id: String,
        endpoint_id: String,
        endpoint_update: String,
    },
    EndpointPatch {
        app_id: String,
        endpoint_id: String,
        endpoint_patch: String,
    },
    EndpointDelete {
        app_id: String,
        endpoint_id: String,
    },
    EndpointGetSecret {
        app_id: String,
        endpoint_id: String,
    },
    EndpointRotateSecret {
        app_id: String,
        endpoint_id: String,
        endpoint_secret_rotate_in: String,
        idempotency_key: Option<String>,
    },
    EndpointRecover {
        app_id: String,
        endpoint_id: String,
        recover_in: String,
        idempotency_key: Option<String>,
    },
    EndpointGetHeaders {
        app_id: String,
        endpoint_id: String,
    },
    EndpointUpdateHeaders {
        app_id: String,
        endpoint_id: String,
        endpoint_headers_in: String,
    },
    EndpointPatchHeaders {
        app_id: String,
        endpoint_id: String,
        endpoint_headers_patch_in: String,
    },
    EndpointGetStats {
        app_id: String,
        endpoint_id: String,
        since: Option<String>,
        until: Option<String>,
    },
    EndpointReplay {
        app_id: String,
        endpoint_id: String,
        replay_in: String,
        idempotency_key: Option<String>,
    },
    EndpointTransformationGet {
        app_id: String,
        endpoint_id: String,
    },
    EndpointTransformationPartialUpdate {
        app_id: String,
        endpoint_id: String,
        endpoint_transformation_in: String,
    },
    EndpointSendExample {
        app_id: String,
        endpoint_id: String,
        event_example_in: String,
        idempotency_key: Option<String>,
    },
    IntegrationList {
        app_id: String,
        iterator: Option<String>,
        limit: Option<i32>,
        order: Option<Ordering>,
    },
    IntegrationCreate {
        app_id: String,
        integration_in: String,
        idempotency_key: Option<String>,
    },
    IntegrationGet {
        app_id: String,
        integ_id: String,
    },
    IntegrationUpdate {
        app_id: String,
        integ_id: String,
        integration_update: String,
    },
    IntegrationDelete {
        app_id: String,
        integ_id: String,
    },
    IntegrationGetKey {
        app_id: String,
        integ_id: String,
    },
    IntegrationRotateKey {
        app_id: String,
        integ_id: String,
        idempotency_key: Option<String>,
    },
    EventTypeList {
        iterator: Option<String>,
        limit: Option<i32>,
        with_content: Option<bool>,
        include_archived: Option<bool>,
        order: Option<Ordering>,
    },
    EventTypeCreate {
        event_type_in: String,
        idempotency_key: Option<String>,
    },
    EventTypeGet {
        event_type_name: String,
    },
    EventTypeUpdate {
        event_type_name: String,
        event_type_update: String,
    },
    EventTypePatch {
        event_type_name: String,
        event_type_patch: String,
    },
    EventTypeDelete {
        event_type_name: String,
        expunge: Option<bool>,
    },
    EventTypeImportOpenapi {
        event_type_import_open_api_in: String,
        idempotency_key: Option<String>,
    },
    MessageList {
        app_id: String,
        iterator: Option<String>,
        limit: Option<i32>,
        event_types: Option<Vec<String>>,
        before: Option<String>,
        after: Option<String>,
        channel: Option<String>,
        with_content: Option<bool>,
        tag: Option<String>,
    },
    MessageCreate {
        app_id: String,
        message_in: String,
        idempotency_key: Option<String>,
        with_content: Option<bool>,
    },
    MessageGet {
        app_id: String,
        msg_id: String,
        with_content: Option<bool>,
    },
    MessageExpungeContent {
        app_id: String,
        msg_id: String,
    },
    MessageAttemptListByMsg {
        app_id: String,
        msg_id: String,
        iterator: Option<String>,
        limit: Option<i32>,
        event_types: Option<Vec<String>>,
        before: Option<String>,
        after: Option<String>,
        channel: Option<String>,
        tag: Option<String>,
        status: Option<MessageStatus>,
        status_code_class: Option<StatusCodeClass>,
        endpoint_id: Option<String>,
        with_content: Option<bool>,
    },
    MessageAttemptListByEndpoint {
        app_id: String,
        endpoint_id: String,
        iterator: Option<String>,
        limit: Option<i32>,
        event_types: Option<Vec<String>>,
        before: Option<String>,
        after: Option<String>,
        channel: Option<String>,
        tag: Option<String>,
        status: Option<MessageStatus>,
        status_code_class: Option<StatusCodeClass>,
        with_content: Option<bool>,
        with_msg: Option<bool>,
    },
    MessageAttemptListAttemptedMessages {
        app_id: String,
        endpoint_id: String,
        iterator: Option<String>,
        limit: Option<i32>,
        before: Option<String>,
        after: Option<String>,
        channel: Option<String>,
        tag: Option<String>,
        status: Option<MessageStatus>,
        with_content: Option<bool>,
        event_types: Option<Vec<String>>,
    },
    MessageAttemptListAttemptedDestinations {
        app_id: String,
        msg_id: String,
        iterator: Option<String>,
        limit: Option<i32>,
    },
    MessageAttemptListByEndpointDeprecated {
        app_id: String,
        msg_id: String,
        endpoint_id: String,
        iterator: Option<String>,
        limit: Option<i32>,
        event_types: Option<Vec<String>>,
        before: Option<String>,
        after: Option<String>,
        channel: Option<String>,
        tag: Option<String>,
        status: Option<MessageStatus>,
    },
    MessageAttemptGet {
        app_id: String,
        msg_id: String,
        attempt_id: String,
    },
    MessageAttemptResend {
        app_id: String,
        msg_id: String,
        endpoint_id: String,
        idempotency_key: Option<String>,
    },
    MessageAttemptExpungeContent {
        app_id: String,
        msg_id: String,
        attempt_id: String,
    },
    OperationalWebhookEndpointList {
        iterator: Option<String>,
        limit: Option<i32>,
        order: Option<Ordering>,
    },
    OperationalWebhookEndpointCreate {
        endpoint_in: String,
        idempotency_key: Option<String>,
    },
    OperationalWebhookEndpointGet {
        endpoint_id: String,
    },
    OperationalWebhookEndpointUpdate {
        endpoint_id: String,
        endpoint_update: String,
    },
    OperationalWebhookEndpointDelete {
        endpoint_id: String,
    },
    OperationalWebhookEndpointGetSecret {
        endpoint_id: String,
    },
    OperationalWebhookEndpointRotateSecret {
        endpoint_id: String,
        endpoint_secret_rotate_in: String,
        idempotency_key: Option<String>,
    },
    BackgroundTaskList {
        iterator: Option<String>,
        limit: Option<i32>,
        order: Option<Ordering>,
        status: Option<BackgroundTaskStatus>,
        task: Option<BackgroundTaskType>,
    },
    BackgroundTaskGet {
        task_id: String,
    },
    StatisticsAggregateAppStats {
        app_ids: Option<Vec<String>>,
        since: String,
        until: String,
        idempotency_key: Option<String>,
    },
    StatisticsAggregateEventTypes,
}

/// A call ready for dispatch: the operation and the configuration of the
/// client that issues it.
pub struct Request<'a> {
    pub cfg: &'a Configuration,
    pub call: Call,
}

/// Options of a write operation.
pub struct PostOptions {
    /// Key under which the server deduplicates retries of the same request.
    pub idempotency_key: Option<String>,
}

impl Default for PostOptions {
    fn default() -> (r: Self)
        ensures
            r.idempotency_key is None,
    {
        PostOptions { idempotency_key: None }
    }
}

/// The idempotency key that `options` supply, if any.
pub open spec fn key_of(options: Option<PostOptions>) -> Option<String> {
    match options {
        Some(o) => o.idempotency_key,
        None => None,
    }
}

/// Failure of a dispatched call.
#[derive(Clone, Debug, PartialEq, Eq)]
pub enum Error {
    /// The request did not complete: connection failure, timeout, TLS failure.
    Transport(String),
    /// The server answered with a non-2xx status and this error body.
    Http { status: u16, body: String },
    /// The response body did not match the expected schema.
    Serialization(String),
}

/// The outcome of an operation whose response body is of no interest: success
/// becomes the unit value, and every error is passed on as it came.
pub fn discard_body<T>(result: Result<T, Error>) -> (r: Result<(), Error>)
    ensures
        result is Ok <==> r is Ok,
        result is Err ==> r == Err::<(), Error>(result->Err_0),
{
    match result {
        Ok(_) => Ok(()),
        Err(e) => Err(e),
    }
}

} // verus!
