use vstd::prelude::*;

use crate::call::{Call, Request};
use crate::config::Configuration;
use crate::options::{MessageStatus, StatusCodeClass};

verus! {

/// Options of a call; every field left `None` is omitted from the request.
pub struct MessageAttemptListOptions {
    pub iterator: Option<String>,
    pub limit: Option<i32>,
    pub event_types: Option<Vec<String>>,
    /// RFC3339 date string
    pub before: Option<String>,
    /// RFC3339 date string
    pub after: Option<String>,
    pub channel: Option<String>,
    pub tag: Option<String>,
    pub status: Option<MessageStatus>,
    pub status_code_class: Option<StatusCodeClass>,
    pub with_content: Option<bool>,
    pub endpoint_id: Option<String>,
}

impl Default for MessageAttemptListOptions {
    fn default() -> (r: Self)
        ensures
            r.iterator is None,
            r.limit is None,
            r.event_types is None,
            r.before is None,
            r.after is None,
            r.channel is None,
            r.tag is None,
            r.status is None,
            r.status_code_class is None,
            r.with_content is None,
            r.endpoint_id is None,
    {
        MessageAttemptListOptions {
            iterator: None,
            limit: None,
            event_types: None,
            before: None,
            after: None,
            channel: None,
            tag: None,
            status: None,
            status_code_class: None,
            with_content: None,
            endpoint_id: None,
        }
    }
}

/// Options of a call; every field left `None` is omitted from the request.
pub struct MessageAttemptListByEndpointOptions {
    pub iterator: Option<String>,
    pub limit: Option<i32>,
    pub event_types: Option<Vec<String>>,
    /// RFC3339 date string
    pub before: Option<String>,
    /// RFC3339 date string
    pub after: Option<String>,
    pub channel: Option<String>,
    pub tag: Option<String>,
    pub status: Option<MessageStatus>,
    pub status_code_class: Option<StatusCodeClass>,
    pub with_content: Option<bool>,
    pub with_msg: Option<bool>,
    pub endpoint_id: Option<String>,
}

impl Default for MessageAttemptListByEndpointOptions {
    fn default() -> (r: Self)
        ensures
            r.iterator is None,
            r.limit is None,
            r.event_types is None,
            r.before is None,
            r.after is None,
            r.channel is None,
            r.tag is None,
            r.status is None,
            r.status_code_class is None,
            r.with_content is None,
            r.with_msg is None,
            r.endpoint_id is None,
    {
        MessageAttemptListByEndpointOptions {
            iterator: None,
            limit: None,
            event_types: None,
            before: None,
            after: None,
            channel: None,
            tag: None,
            status: None,
            status_code_class: None,
            with_content: None,
            with_msg: None,
            endpoint_id: None,
        }
    }
}

/// Pagination of a list operation.
pub struct ListOptions {
    pub iterator: Option<String>,
    pub limit: Option<i32>,
}

impl Default for ListOptions {
    fn default() -> (r: Self)
        ensures
            r.iterator is None,
            r.limit is None,
    {
        ListOptions {
            iterator: None,
            limit: None,
        }
    }
}

/// Operations on delivery attempts of messages.
pub struct MessageAttempt<'a> {
    cfg: &'a Configuration,
}

impl<'a> MessageAttempt<'a> {
    pub(crate) fn new(cfg: &'a Configuration) -> (r: Self)
        ensures
            r.config() == *cfg,
    {
        Self { cfg }
    }

    /// The configuration that the requests of this sub-client carry.
    pub closed spec fn config(&self) -> Configuration {
        *self.cfg
    }

    /// The wire parameters of [`MessageAttempt::list_by_msg`].
    pub open spec fn list_by_msg_call(
        app_id: String,
        msg_id: String,
        options: Option<MessageAttemptListOptions>,
    ) -> Call {
        match options {
            Some(o) => Call::MessageAttemptListByMsg {
                app_id,
                msg_id,
                iterator: o.iterator,
                limit: o.limit,
                event_types: o.event_types,
                before: o.before,
                after: o.after,
                channel: o.channel,
                tag: o.tag,
                status: o.status,
                status_code_class: o.status_code_class,
                endpoint_id: o.endpoint_id,
                with_content: o.with_content,
            },
            None => Call::MessageAttemptListByMsg {
                app_id,
                msg_id,
                iterator: None,
                limit: None,
                event_types: None,
                before: None,
                after: None,
                channel: None,
                tag: None,
                status: None,
                status_code_class: None,
                endpoint_id: None,
                with_content: None,
            },
        }
    }

    pub fn list_by_msg(
        &self,
        app_id: String,
        msg_id: String,
        options: Option<MessageAttemptListOptions>,
    ) -> (r: Request<'a>)
        ensures
            *r.cfg == self.config(),
            r.call == Self::list_by_msg_call(app_id, msg_id, options),
    {
        let o = match options {
            Some(o) => o,
            None => MessageAttemptListOptions::default(),
        };
        let call = Call::MessageAttemptListByMsg {
            app_id,
            msg_id,
            iterator: o.iterator,
            limit: o.limit,
            event_types: o.event_types,
            before: o.before,
            after: o.after,
            channel: o.channel,
            tag: o.tag,
            status: o.status,
            status_code_class: o.status_code_class,
            endpoint_id: o.endpoint_id,
            with_content: o.with_content,
        };
        Request { cfg: self.cfg, call }
    }

    /// The wire parameters of [`MessageAttempt::list_by_endpoint`].
    pub open spec fn list_by_endpoint_call(
        app_id: String,
        endpoint_id: String,
        options: Option<MessageAttemptListByEndpointOptions>,
    ) -> Call {
        match options {
            Some(o) => Call::MessageAttemptListByEndpoint {
                app_id,
                endpoint_id,
                iterator: o.iterator,
                limit: o.limit,
                event_types: o.event_types,
                before: o.before,
                after: o.after,
                channel: o.channel,
                tag: o.tag,
                status: o.status,
                status_code_class: o.status_code_class,
                with_content: o.with_content,
                with_msg: o.with_msg,
            },
            None => Call::MessageAttemptListByEndpoint {
                app_id,
                endpoint_id,
                iterator: None,
                limit: None,
                event_types: None,
                before: None,
                after: None,
                channel: None,
                tag: None,
                status: None,
                status_code_class: None,
                with_content: None,
                with_msg: None,
            },
        }
    }

    /// The `endpoint_id` of the options is not sent: the endpoint is the one given.
    pub fn list_by_endpoint(
        &self,
        app_id: String,
        endpoint_id: String,
        options: Option<MessageAttemptListByEndpointOptions>,
    ) -> (r: Request<'a>)
        ensures
            *r.cfg == self.config(),
            r.call == Self::list_by_endpoint_call(app_id, endpoint_id, options),
    {
        let o = match options {
            Some(o) => o,
            None => MessageAttemptListByEndpointOptions::default(),
        };
        let call = Call::MessageAttemptListByEndpoint {
            app_id,
            endpoint_id,
            iterator: o.iterator,
            limit: o.limit,
            event_types: o.event_types,
            before: o.before,
            after: o.after,
            channel: o.channel,
            tag: o.tag,
            status: o.status,
            status_code_class: o.status_code_class,
            with_content: o.with_content,
            with_msg: o.with_msg,
        };
        Request { cfg: self.cfg, call }
    }

    /// The wire parameters of [`MessageAttempt::list_attempted_messages`].
    pub open spec fn list_attempted_messages_call(
        app_id: String,
        endpoint_id: String,
        options: Option<MessageAttemptListOptions>,
    ) -> Call {
        match options {
            Some(o) => Call::MessageAttemptListAttemptedMessages {
                app_id,
                endpoint_id,
                iterator: o.iterator,
                limit: o.limit,
                before: o.before,
                after: o.after,
                channel: o.channel,
                tag: o.tag,
                status: o.status,
                with_content: o.with_content,
                event_types: o.event_types,
            },
            None => Call::MessageAttemptListAttemptedMessages {
                app_id,
                endpoint_id,
                iterator: None,
                limit: None,
                before: None,
                after: None,
                channel: None,
                tag: None,
                status: None,
                with_content: None,
                event_types: None,
            },
        }
    }

    /// The `status_code_class` and `endpoint_id` of the options are not sent.
    pub fn list_attempted_messages(
        &self,
        app_id: String,
        endpoint_id: String,
        options: Option<MessageAttemptListOptions>,
    ) -> (r: Request<'a>)
        ensures
            *r.cfg == self.config(),
            r.call == Self::list_attempted_messages_call(app_id, endpoint_id, options),
    {
        let o = match options {
            Some(o) => o,
            None => MessageAttemptListOptions::default(),
        };
        let call = Call::MessageAttemptListAttemptedMessages {
            app_id,
            endpoint_id,
            iterator: o.iterator,
            limit: o.limit,
            before: o.before,
            after: o.after,
            channel: o.channel,
            tag: o.tag,
            status: o.status,
            with_content: o.with_content,
            event_types: o.event_types,
        };
        Request { cfg: self.cfg, call }
    }

    /// The wire parameters of [`MessageAttempt::list_attempted_destinations`].
    pub open spec fn list_attempted_destinations_call(
        app_id: String,
        msg_id: String,
        options: Option<ListOptions>,
    ) -> Call {
        match options {
            Some(o) => Call::MessageAttemptListAttemptedDestinations {
                app_id,
                msg_id,
                iterator: o.iterator,
                limit: o.limit,
            },
            None => Call::MessageAttemptListAttemptedDestinations {
                app_id,
                msg_id,
                iterator: None,
                limit: None,
            },
        }
    }

    pub fn list_attempted_destinations(
        &self,
        app_id: String,
        msg_id: String,
        options: Option<ListOptions>,
    ) -> (r: Request<'a>)
        ensures
            *r.cfg == self.config(),
            r.call == Self::list_attempted_destinations_call(app_id, msg_id, options),
    {
        let o = match options {
            Some(o) => o,
            None => ListOptions::default(),
        };
        let call = Call::MessageAttemptListAttemptedDestinations {
            app_id,
            msg_id,
            iterator: o.iterator,
            limit: o.limit,
        };
        Request { cfg: self.cfg, call }
    }

    /// The wire parameters of [`MessageAttempt::list_attempts_for_endpoint`].
    pub open spec fn list_attempts_for_endpoint_call(
        app_id: String,
        msg_id: String,
        endpoint_id: String,
        options: Option<MessageAttemptListOptions>,
    ) -> Call {
        match options {
            Some(o) => Call::MessageAttemptListByEndpointDeprecated {
                app_id,
                msg_id,
                endpoint_id,
                iterator: o.iterator,
                limit: o.limit,
                event_types: o.event_types,
                before: o.before,
                after: o.after,
                channel: o.channel,
                tag: o.tag,
                status: o.status,
            },
            None => Call::MessageAttemptListByEndpointDeprecated {
                app_id,
                msg_id,
                endpoint_id,
                iterator: None,
                limit: None,
                event_types: None,
                before: None,
                after: None,
                channel: None,
                tag: None,
                status: None,
            },
        }
    }

    /// Lists the attempts of one message at one endpoint. The
    /// `status_code_class`, `endpoint_id` and `with_content` of the options are
    /// not sent.
    pub fn list_attempts_for_endpoint(
        &self,
        app_id: String,
        msg_id: String,
        endpoint_id: String,
        options: Option<MessageAttemptListOptions>,
    ) -> (r: Request<'a>)
        ensures
            *r.cfg == self.config(),
            r.call == Self::list_attempts_for_endpoint_call(app_id, msg_id, endpoint_id, options),
    {
        let o = match options {
            Some(o) => o,
            None => MessageAttemptListOptions::default(),
        };
        let call = Call::MessageAttemptListByEndpointDeprecated {
            app_id,
            msg_id,
            endpoint_id,
            iterator: o.iterator,
            limit: o.limit,
            event_types: o.event_types,
            before: o.before,
            after: o.after,
            channel: o.channel,
            tag: o.tag,
            status: o.status,
        };
        Request { cfg: self.cfg, call }
    }

    /// The wire parameters of [`MessageAttempt::get`].
    pub open spec fn get_call(app_id: String, msg_id: String, attempt_id: String) -> Call {
        Call::MessageAttemptGet { app_id, msg_id, attempt_id }
    }

    pub fn get(&self, app_id: String, msg_id: String, attempt_id: String) -> (r: Request<'a>)
        ensures
            *r.cfg == self.config(),
            r.call == Self::get_call(app_id, msg_id, attempt_id),
    {
        let call = Call::MessageAttemptGet { app_id, msg_id, attempt_id };
        Request { cfg: self.cfg, call }
    }

    /// The wire parameters of [`MessageAttempt::resend`].
    pub open spec fn resend_call(app_id: String, msg_id: String, endpoint_id: String) -> Call {
        Call::MessageAttemptResend {
            app_id,
            msg_id,
            endpoint_id,
            idempotency_key: None,
        }
    }

    /// Sent without an idempotency key.
    pub fn resend(&self, app_id: String, msg_id: String, endpoint_id: String) -> (r: Request<'a>)
        ensures
            *r.cfg == self.config(),
            r.call == Self::resend_call(app_id, msg_id, endpoint_id),
    {
        let call = Call::MessageAttemptResend {
            app_id,
            msg_id,
            endpoint_id,
            idempotency_key: None,
        };
        Request { cfg: self.cfg, call }
    }

    /// The wire parameters of [`MessageAttempt::expunge_content`].
    pub open spec fn expunge_content_call(
        app_id: String,
        msg_id: String,
        attempt_id: String,
    ) -> Call {
        Call::MessageAttemptExpungeContent { app_id, msg_id, attempt_id }
    }

    pub fn expunge_content(
        &self,
        app_id: String,
        msg_id: String,
        attempt_id: String,
    ) -> (r: Request<'a>)
        ensures
            *r.cfg == self.config(),
            r.call == Self::expunge_content_call(app_id, msg_id, attempt_id),
    {
        let call = Call::MessageAttemptExpungeContent { app_id, msg_id, attempt_id };
        Request { cfg: self.cfg, call }
    }
}

} // verus!
