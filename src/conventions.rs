use vstd::prelude::*;

use crate::application::{Application, ApplicationListOptions};
use crate::authentication::Authentication;
use crate::background_task::{BackgroundTask, BackgroundTaskListOptions};
use crate::call::{key_of, Call, PostOptions};
use crate::endpoint::{Endpoint, EndpointListOptions, EndpointStatsOptions};
use crate::event_type::{EventType, EventTypeListOptions};
use crate::integration::{Integration, IntegrationListOptions};
use crate::message::{Message, MessageListOptions};
use crate::message_attempt::{
    ListOptions, MessageAttempt, MessageAttemptListByEndpointOptions, MessageAttemptListOptions,
};
use crate::operational_webhook_endpoint::{
    OperationalWebhookEndpoint, OperationalWebhookEndpointListOptions,
};
use crate::statistics::{AggregateAppStatsOptions, Statistics};

verus! {

/// Every list operation, and every operation with optional filters, sends
/// an option that the caller left out as an absent parameter: leaving out
/// the whole options struct, or passing one whose fields are all `None`,
/// yields the same request, in which no optional parameter is set.
pub proof fn lemma_omitted_options_are_absent(app_id: String, endpoint_id: String, msg_id: String)
    ensures
        Application::list_call(
            Some(ApplicationListOptions {
                iterator: None,
                limit: None,
                order: None,
            }),
        ) == Application::list_call(None),
        Application::list_call(None) == (Call::ApplicationList {
            iterator: None,
            limit: None,
            order: None,
        }),
        Endpoint::list_call(
            app_id,
            Some(EndpointListOptions {
                iterator: None,
                limit: None,
                order: None,
            }),
        ) == Endpoint::list_call(app_id, None),
        Endpoint::list_call(app_id, None) == (Call::EndpointList {
            app_id,
            iterator: None,
            limit: None,
            order: None,
        }),
        Endpoint::get_stats_call(
            app_id,
            endpoint_id,
            Some(EndpointStatsOptions {
                since: None,
                until: None,
            }),
        ) == Endpoint::get_stats_call(app_id, endpoint_id, None),
        Endpoint::get_stats_call(app_id, endpoint_id, None) == (Call::EndpointGetStats {
            app_id,
            endpoint_id,
            since: None,
            until: None,
        }),
        Integration::list_call(
            app_id,
            Some(IntegrationListOptions {
                iterator: None,
                limit: None,
                order: None,
            }),
        ) == Integration::list_call(app_id, None),
        Integration::list_call(app_id, None) == (Call::IntegrationList {
            app_id,
            iterator: None,
            limit: None,
            order: None,
        }),
        EventType::list_call(
            Some(EventTypeListOptions {
                iterator: None,
                limit: None,
                with_content: None,
                include_archived: None,
            }),
        ) == EventType::list_call(None),
        EventType::list_call(None) == (Call::EventTypeList {
            iterator: None,
            limit: None,
            with_content: None,
            include_archived: None,
            order: None,
        }),
        Message::list_call(
            app_id,
            Some(MessageListOptions {
                iterator: None,
                limit: None,
                event_types: None,
                before: None,
                after: None,
                channel: None,
                with_content: None,
                tag: None,
            }),
        ) == Message::list_call(app_id, None),
        Message::list_call(app_id, None) == (Call::MessageList {
            app_id,
            iterator: None,
            limit: None,
            event_types: None,
            before: None,
            after: None,
            channel: None,
            with_content: None,
            tag: None,
        }),
        MessageAttempt::list_by_msg_call(
            app_id,
            msg_id,
            Some(MessageAttemptListOptions {
                iterator: None,
                limit: None,
                event_types: None,
                before: None,
                after: None,
                channel: None,
                tag: None,
                status: None,
                status_code_class: None,
                with_content: None,
                endpoint_id: None,
            }),
        ) == MessageAttempt::list_by_msg_call(app_id, msg_id, None),
        MessageAttempt::list_by_msg_call(app_id, msg_id, None) == (Call::MessageAttemptListByMsg {
            app_id,
            msg_id,
            iterator: None,
            limit: None,
            event_types: None,
            before: None,
            after: None,
            channel: None,
            tag: None,
            status: None,
            status_code_class: None,
            endpoint_id: None,
            with_content: None,
        }),
        MessageAttempt::list_by_endpoint_call(
            app_id,
            endpoint_id,
            Some(MessageAttemptListByEndpointOptions {
                iterator: None,
                limit: None,
                event_types: None,
                before: None,
                after: None,
                channel: None,
                tag: None,
                status: None,
                status_code_class: None,
                with_content: None,
                with_msg: None,
                endpoint_id: None,
            }),
        ) == MessageAttempt::list_by_endpoint_call(app_id, endpoint_id, None),
        MessageAttempt::list_by_endpoint_call(app_id, endpoint_id, None)
            == (Call::MessageAttemptListByEndpoint {
                app_id,
                endpoint_id,
                iterator: None,
                limit: None,
                event_types: None,
                before: None,
                after: None,
                channel: None,
                tag: None,
                status: None,
                status_code_class: None,
                with_content: None,
                with_msg: None,
            }),
        MessageAttempt::list_attempted_messages_call(
            app_id,
            endpoint_id,
            Some(MessageAttemptListOptions {
                iterator: None,
                limit: None,
                event_types: None,
                before: None,
                after: None,
                channel: None,
                tag: None,
                status: None,
                status_code_class: None,
                with_content: None,
                endpoint_id: None,
            }),
        ) == MessageAttempt::list_attempted_messages_call(app_id, endpoint_id, None),
        MessageAttempt::list_attempted_messages_call(app_id, endpoint_id, None)
            == (Call::MessageAttemptListAttemptedMessages {
                app_id,
                endpoint_id,
                iterator: None,
                limit: None,
                before: None,
                after: None,
                channel: None,
                tag: None,
                status: None,
                with_content: None,
                event_types: None,
            }),
        MessageAttempt::list_attempted_destinations_call(
            app_id,
            msg_id,
            Some(ListOptions {
                iterator: None,
                limit: None,
            }),
        ) == MessageAttempt::list_attempted_destinations_call(app_id, msg_id, None),
        MessageAttempt::list_attempted_destinations_call(app_id, msg_id, None)
            == (Call::MessageAttemptListAttemptedDestinations {
                app_id,
                msg_id,
                iterator: None,
                limit: None,
            }),
        MessageAttempt::list_attempts_for_endpoint_call(
            app_id,
            msg_id,
            endpoint_id,
            Some(MessageAttemptListOptions {
                iterator: None,
                limit: None,
                event_types: None,
                before: None,
                after: None,
                channel: None,
                tag: None,
                status: None,
                status_code_class: None,
                with_content: None,
                endpoint_id: None,
            }),
        ) == MessageAttempt::list_attempts_for_endpoint_call(app_id, msg_id, endpoint_id, None),
        MessageAttempt::list_attempts_for_endpoint_call(app_id, msg_id, endpoint_id, None)
            == (Call::MessageAttemptListByEndpointDeprecated {
                app_id,
                msg_id,
                endpoint_id,
                iterator: None,
                limit: None,
                event_types: None,
                before: None,
                after: None,
                channel: None,
                tag: None,
                status: None,
            }),
        OperationalWebhookEndpoint::list_call(
            Some(OperationalWebhookEndpointListOptions {
                iterator: None,
                limit: None,
                order: None,
            }),
        ) == OperationalWebhookEndpoint::list_call(None),
        OperationalWebhookEndpoint::list_call(None) == (Call::OperationalWebhookEndpointList {
            iterator: None,
            limit: None,
            order: None,
        }),
        BackgroundTask::list_call(
            Some(BackgroundTaskListOptions {
                iterator: None,
                limit: None,
                order: None,
                status: None,
                task: None,
            }),
        ) == BackgroundTask::list_call(None),
        BackgroundTask::list_call(None) == (Call::BackgroundTaskList {
            iterator: None,
            limit: None,
            order: None,
            status: None,
            task: None,
        }),
{
}

/// Every operation that accepts an idempotency key forwards the key it was
/// given unchanged, so a retry with the same key and body sends the same
/// request.
pub proof fn lemma_idempotency_key_forwarded(
    app_id: String,
    app_portal_access_in: String,
    application_in: String,
    endpoint_id: String,
    endpoint_in: String,
    event_example_in: String,
    event_type_import_open_api_in: String,
    event_type_in: String,
    integration_in: String,
    message_in: String,
    replay_in: String,
    stats: AggregateAppStatsOptions,
    key: String,
)
    ensures
        Authentication::dashboard_access_call(
            app_id, Some(PostOptions { idempotency_key: Some(key) }),
        )->AuthenticationDashboardAccess_idempotency_key == Some(key),
        Authentication::app_portal_access_call(
            app_id, app_portal_access_in, Some(PostOptions { idempotency_key: Some(key) }),
        )->AuthenticationAppPortalAccess_idempotency_key == Some(key),
        Authentication::logout_call(
            Some(PostOptions { idempotency_key: Some(key) }),
        )->AuthenticationLogout_idempotency_key == Some(key),
        Application::create_call(
            application_in, Some(PostOptions { idempotency_key: Some(key) }),
        )->ApplicationCreate_idempotency_key == Some(key),
        Application::get_or_create_call(
            application_in, Some(PostOptions { idempotency_key: Some(key) }),
        )->ApplicationCreate_idempotency_key == Some(key),
        Endpoint::create_call(
            app_id, endpoint_in, Some(PostOptions { idempotency_key: Some(key) }),
        )->EndpointCreate_idempotency_key == Some(key),
        Endpoint::replay_missing_call(
            app_id, endpoint_id, replay_in, Some(PostOptions { idempotency_key: Some(key) }),
        )->EndpointReplay_idempotency_key == Some(key),
        Endpoint::send_example_call(
            app_id, endpoint_id, event_example_in, Some(PostOptions { idempotency_key: Some(key) }),
        )->EndpointSendExample_idempotency_key == Some(key),
        Integration::create_call(
            app_id, integration_in, Some(PostOptions { idempotency_key: Some(key) }),
        )->IntegrationCreate_idempotency_key == Some(key),
        EventType::create_call(
            event_type_in, Some(PostOptions { idempotency_key: Some(key) }),
        )->EventTypeCreate_idempotency_key == Some(key),
        EventType::import_openapi_call(
            event_type_import_open_api_in, Some(PostOptions { idempotency_key: Some(key) }),
        )->EventTypeImportOpenapi_idempotency_key == Some(key),
        Message::create_call(
            app_id, message_in, Some(PostOptions { idempotency_key: Some(key) }),
        )->MessageCreate_idempotency_key == Some(key),
        OperationalWebhookEndpoint::create_call(
            endpoint_in, Some(PostOptions { idempotency_key: Some(key) }),
        )->OperationalWebhookEndpointCreate_idempotency_key == Some(key),
        Statistics::aggregate_app_stats_call(
            stats,
            Some(PostOptions { idempotency_key: Some(key) }),
        )->StatisticsAggregateAppStats_idempotency_key == Some(key),
{
}

/// `create` and `get_or_create` of an application send the same operation
/// with the same body and key; they differ only in the "get if exists" flag,
/// which `create` leaves unset and `get_or_create` sets to `true`.
pub proof fn lemma_get_or_create_differs_only_in_flag(
    application_in: String,
    options: Option<PostOptions>,
)
    ensures
        Application::create_call(application_in, options) == (Call::ApplicationCreate {
            application_in,
            idempotency_key: key_of(options),
            get_if_exists: None,
        }),
        Application::get_or_create_call(application_in, options) == (Call::ApplicationCreate {
            application_in,
            idempotency_key: key_of(options),
            get_if_exists: Some(true),
        }),
{
}

} // verus!
