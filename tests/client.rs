use std::sync::Arc;

use svix::{
    default_base_url, discard_body, AggregateAppStatsOptions, ApplicationListOptions, Call,
    EndpointStatsOptions, Error, EventTypeListOptions, MessageAttemptListByEndpointOptions,
    MessageAttemptListOptions, MessageStatus, Ordering, PostOptions, Region, StatusCodeClass, Svix,
    SvixOptions,
};

fn with_server(url: &str) -> Option<SvixOptions> {
    Some(SvixOptions { debug: false, server_url: Some(url.to_string()), timeout: Some(15000) })
}

fn key(k: &str) -> Option<PostOptions> {
    Some(PostOptions { idempotency_key: Some(k.to_string()) })
}

#[test]
fn base_url_scenarios() {
    let us = Svix::new("secret.us".to_string(), None);
    assert_eq!(us.cfg().base_path, "https://api.us.svix.com");
    let plain = Svix::new("secret".to_string(), None);
    assert_eq!(plain.cfg().base_path, "https://api.svix.com");
    let custom = Svix::new("secret.eu".to_string(), with_server("https://custom.example"));
    assert_eq!(custom.cfg().base_path, "https://custom.example");
}

#[test]
fn every_region_suffix() {
    assert_eq!(default_base_url("key.eu"), "https://api.eu.svix.com");
    assert_eq!(default_base_url("key.in"), "https://api.in.svix.com");
    assert_eq!(default_base_url("a.b.us"), "https://api.us.svix.com");
    assert_eq!(default_base_url("key.de"), "https://api.svix.com");
    assert_eq!(default_base_url("key.US"), "https://api.svix.com");
    assert_eq!(default_base_url("key.us."), "https://api.svix.com");
    assert_eq!(default_base_url("key.usa"), "https://api.svix.com");
    assert_eq!(default_base_url(""), "https://api.svix.com");
}

#[test]
fn undotted_token_is_global() {
    assert_eq!(Region::of_token("us"), Region::Global);
    assert_eq!(Region::of_token("eu"), Region::Global);
    assert_eq!(Region::of_token("secret"), Region::Global);
    assert_eq!(Region::of_token(".in"), Region::In);
    assert_eq!(Region::Global.base_url(), "https://api.svix.com");
}

#[test]
fn defaults_of_a_new_client() {
    let svix = Svix::new("tok.eu".to_string(), None);
    let cfg = svix.cfg();
    assert_eq!(cfg.timeout, Some(15000));
    assert_eq!(cfg.bearer_access_token.as_deref(), Some("tok.eu"));
    assert_eq!(cfg.user_agent.as_deref(), Some("svix-libs/0.1.0/rust"));
    assert_eq!(cfg.base_path, "https://api.eu.svix.com");
    let untimed = Svix::new(
        "tok".to_string(),
        Some(SvixOptions { debug: false, server_url: None, timeout: None }),
    );
    assert_eq!(untimed.cfg().timeout, None);
}

#[test]
fn retokening_keeps_settings_and_transport() {
    let first = Svix::new("one.us".to_string(), Some(SvixOptions {
        debug: false,
        server_url: None,
        timeout: Some(2500),
    }));
    let second = first.with_token("two.in".to_string());
    assert!(Arc::ptr_eq(&first.cfg().client, &second.cfg().client));
    assert_eq!(second.cfg().timeout, Some(2500));
    assert_eq!(second.cfg().base_path, "https://api.in.svix.com");
    assert_eq!(second.cfg().bearer_access_token.as_deref(), Some("two.in"));
    assert_eq!(first.cfg().bearer_access_token.as_deref(), Some("one.us"));
    assert_eq!(first.cfg().base_path, "https://api.us.svix.com");

    let pinned = Svix::new("one.us".to_string(), with_server("http://localhost:8071"));
    let moved = pinned.with_token("two.eu".to_string());
    assert_eq!(moved.cfg().base_path, "http://localhost:8071");
    assert!(Arc::ptr_eq(&pinned.cfg().client, &moved.cfg().client));
}

#[test]
fn omitted_list_options_are_absent() {
    let svix = Svix::new("tok".to_string(), None);
    let req = svix.application().list(None);
    assert_eq!(req.call, Call::ApplicationList { iterator: None, limit: None, order: None });
    let req = svix.event_type().list(Some(EventTypeListOptions::default()));
    assert_eq!(
        req.call,
        Call::EventTypeList {
            iterator: None,
            limit: None,
            with_content: None,
            include_archived: None,
            order: None,
        }
    );
    let req = svix.message_attempt().list_by_msg("app".to_string(), "msg".to_string(), None);
    assert_eq!(
        req.call,
        Call::MessageAttemptListByMsg {
            app_id: "app".to_string(),
            msg_id: "msg".to_string(),
            iterator: None,
            limit: None,
            event_types: None,
            before: None,
            after: None,
            channel: None,
            tag: None,
            status: None,
            status_code_class: None,
            endpoint_id: None,
            with_content: None,
        }
    );
}

#[test]
fn list_options_are_copied() {
    let svix = Svix::new("tok".to_string(), None);
    let req = svix.application().list(Some(ApplicationListOptions {
        iterator: Some("iter_1".to_string()),
        limit: Some(20),
        order: Some(Ordering::Descending),
    }));
    assert_eq!(
        req.call,
        Call::ApplicationList {
            iterator: Some("iter_1".to_string()),
            limit: Some(20),
            order: Some(Ordering::Descending),
        }
    );
    let req = svix.endpoint().get_stats(
        "app".to_string(),
        "ep".to_string(),
        Some(EndpointStatsOptions { since: Some("2024-01-01T00:00:00Z".to_string()), until: None }),
    );
    assert_eq!(
        req.call,
        Call::EndpointGetStats {
            app_id: "app".to_string(),
            endpoint_id: "ep".to_string(),
            since: Some("2024-01-01T00:00:00Z".to_string()),
            until: None,
        }
    );
}

#[test]
fn attempt_listings_drop_unsupported_filters() {
    let svix = Svix::new("tok".to_string(), None);
    let opts = MessageAttemptListByEndpointOptions {
        iterator: None,
        limit: Some(5),
        event_types: Some(vec!["user.signup".to_string()]),
        before: None,
        after: None,
        channel: None,
        tag: None,
        status: Some(MessageStatus::Fail),
        status_code_class: Some(StatusCodeClass::Code5xx),
        with_content: Some(false),
        with_msg: Some(true),
        endpoint_id: Some("other".to_string()),
    };
    let req = svix.message_attempt().list_by_endpoint("app".to_string(), "ep".to_string(), Some(opts));
    assert_eq!(
        req.call,
        Call::MessageAttemptListByEndpoint {
            app_id: "app".to_string(),
            endpoint_id: "ep".to_string(),
            iterator: None,
            limit: Some(5),
            event_types: Some(vec!["user.signup".to_string()]),
            before: None,
            after: None,
            channel: None,
            tag: None,
            status: Some(MessageStatus::Fail),
            status_code_class: Some(StatusCodeClass::Code5xx),
            with_content: Some(false),
            with_msg: Some(true),
        }
    );
    let opts = MessageAttemptListOptions {
        iterator: None,
        limit: None,
        event_types: None,
        before: None,
        after: None,
        channel: Some("eu".to_string()),
        tag: None,
        status: None,
        status_code_class: Some(StatusCodeClass::Code2xx),
        with_content: Some(true),
        endpoint_id: None,
    };
    let req = svix.message_attempt().list_attempts_for_endpoint(
        "app".to_string(),
        "msg".to_string(),
        "ep".to_string(),
        Some(opts),
    );
    assert_eq!(
        req.call,
        Call::MessageAttemptListByEndpointDeprecated {
            app_id: "app".to_string(),
            msg_id: "msg".to_string(),
            endpoint_id: "ep".to_string(),
            iterator: None,
            limit: None,
            event_types: None,
            before: None,
            after: None,
            channel: Some("eu".to_string()),
            tag: None,
            status: None,
        }
    );
}

#[test]
fn retried_create_forwards_the_same_key() {
    let svix = Svix::new("tok".to_string(), None);
    let body = r#"{"url":"https://example.com/hook"}"#;
    let first = svix.endpoint().create("app".to_string(), body.to_string(), key("retry-7"));
    let second = svix.endpoint().create("app".to_string(), body.to_string(), key("retry-7"));
    assert_eq!(first.call, second.call);
    assert_eq!(
        first.call,
        Call::EndpointCreate {
            app_id: "app".to_string(),
            endpoint_in: body.to_string(),
            idempotency_key: Some("retry-7".to_string()),
        }
    );
    let req = svix.message().create("app".to_string(), "{}".to_string(), None);
    assert_eq!(
        req.call,
        Call::MessageCreate {
            app_id: "app".to_string(),
            message_in: "{}".to_string(),
            idempotency_key: None,
            with_content: None,
        }
    );
}

#[test]
fn create_and_get_or_create_differ_in_flag() {
    let svix = Svix::new("tok".to_string(), None);
    let body = r#"{"name":"shop"}"#;
    let create = svix.application().create(body.to_string(), key("k1"));
    let get_or_create = svix.application().get_or_create(body.to_string(), key("k1"));
    assert_eq!(
        create.call,
        Call::ApplicationCreate {
            application_in: body.to_string(),
            idempotency_key: Some("k1".to_string()),
            get_if_exists: None,
        }
    );
    assert_eq!(
        get_or_create.call,
        Call::ApplicationCreate {
            application_in: body.to_string(),
            idempotency_key: Some("k1".to_string()),
            get_if_exists: Some(true),
        }
    );
}

#[test]
fn update_ignores_post_options() {
    let svix = Svix::new("tok".to_string(), None);
    let req = svix.application().update("app".to_string(), "{}".to_string(), key("ignored"));
    assert_eq!(
        req.call,
        Call::ApplicationUpdate { app_id: "app".to_string(), application_in: "{}".to_string() }
    );
    let req = svix.endpoint().rotate_secret("app".to_string(), "ep".to_string(), "{}".to_string());
    assert_eq!(
        req.call,
        Call::EndpointRotateSecret {
            app_id: "app".to_string(),
            endpoint_id: "ep".to_string(),
            endpoint_secret_rotate_in: "{}".to_string(),
            idempotency_key: None,
        }
    );
    let req = svix.event_type().delete("user.signup".to_string());
    assert_eq!(
        req.call,
        Call::EventTypeDelete { event_type_name: "user.signup".to_string(), expunge: None }
    );
}

#[test]
fn statistics_take_a_required_range() {
    let svix = Svix::new("tok".to_string(), None);
    let stats = AggregateAppStatsOptions {
        app_ids: None,
        since: "2024-01-01T00:00:00Z".to_string(),
        until: "2024-02-01T00:00:00Z".to_string(),
    };
    let req = svix.statistics().aggregate_app_stats(stats, key("s1"));
    assert_eq!(
        req.call,
        Call::StatisticsAggregateAppStats {
            app_ids: None,
            since: "2024-01-01T00:00:00Z".to_string(),
            until: "2024-02-01T00:00:00Z".to_string(),
            idempotency_key: Some("s1".to_string()),
        }
    );
    assert_eq!(svix.statistics().aggregate_event_types().call, Call::StatisticsAggregateEventTypes);
}

#[test]
fn requests_carry_the_client_configuration() {
    let svix = Svix::new("tok.in".to_string(), None);
    let req = svix.background_task().get("task_1".to_string());
    assert!(std::ptr::eq(req.cfg, svix.cfg()));
    assert_eq!(req.cfg.base_path, "https://api.in.svix.com");
    assert_eq!(req.call, Call::BackgroundTaskGet { task_id: "task_1".to_string() });
}

#[test]
fn dispatch_errors_pass_through() {
    let transport: Result<u32, Error> = Err(Error::Transport("connection reset".to_string()));
    assert_eq!(discard_body(transport), Err(Error::Transport("connection reset".to_string())));
    let http: Result<u32, Error> =
        Err(Error::Http { status: 422, body: r#"{"code":"validation"}"#.to_string() });
    assert_eq!(
        discard_body(http),
        Err(Error::Http { status: 422, body: r#"{"code":"validation"}"#.to_string() })
    );
    let malformed: Result<u32, Error> = Err(Error::Serialization("expected `id`".to_string()));
    assert_eq!(discard_body(malformed), Err(Error::Serialization("expected `id`".to_string())));
    assert_eq!(discard_body(Ok::<u32, Error>(7)), Ok(()));
}
