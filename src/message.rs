use vstd::prelude::*;

use crate::call::{key_of, Call, PostOptions, Request};
use crate::config::Configuration;

verus! {

/// Options of a call; every field left `None` is omitted from the request.
pub struct MessageListOptions {
    pub iterator: Option<String>,
    pub limit: Option<i32>,
    pub event_types: Option<Vec<String>>,
    /// RFC3339 date string
    pub before: Option<String>,
    /// RFC3339 date string
    pub after: Option<String>,
    pub channel: Option<String>,
    pub with_content: Option<bool>,
    pub tag: Option<String>,
}

impl Default for MessageListOptions {
    fn default() -> (r: Self)
        ensures
            r.iterator is None,
            r.limit is None,
            r.event_types is None,
            r.before is None,
            r.after is None,
            r.channel is None,
            r.with_content is None,
            r.tag is None,
    {
        MessageListOptions {
            iterator: None,
            limit: None,
            event_types: None,
            before: None,
            after: None,
            channel: None,
            with_content: None,
            tag: None,
        }
    }
}

/// Operations on messages.
pub struct Message<'a> {
    cfg: &'a Configuration,
}

impl<'a> Message<'a> {
    pub(crate) fn new(cfg: &'a Configuration) -> (r: Self)
        ensures
            r.config() == *cfg,
    {
        Self { cfg }
    }

    /// The configuration that the requests of this sub-client carry.
    pub closed spec fn config(&self) -> Configuration {
        *self.cfg
    }

    /// The wire parameters of [`Message::list`].
    pub open spec fn list_call(app_id: String, options: Option<MessageListOptions>) -> Call {
        match options {
            Some(o) => Call::MessageList {
                app_id,
                iterator: o.iterator,
                limit: o.limit,
                event_types: o.event_types,
                before: o.before,
                after: o.after,
                channel: o.channel,
                with_content: o.with_content,
                tag: o.tag,
            },
            None => Call::MessageList {
                app_id,
                iterator: None,
                limit: None,
                event_types: None,
                before: None,
                after: None,
                channel: None,
                with_content: None,
                tag: None,
            },
        }
    }

    pub fn list(&self, app_id: String, options: Option<MessageListOptions>) -> (r: Request<'a>)
        ensures
            *r.cfg == self.config(),
            r.call == Self::list_call(app_id, options),
    {
        let o = match options {
            Some(o) => o,
            None => MessageListOptions::default(),
        };
        let call = Call::MessageList {
            app_id,
            iterator: o.iterator,
            limit: o.limit,
            event_types: o.event_types,
            before: o.before,
            after: o.after,
            channel: o.channel,
            with_content: o.with_content,
            tag: o.tag,
        };
        Request { cfg: self.cfg, call }
    }

    /// The wire parameters of [`Message::create`].
    pub open spec fn create_call(
        app_id: String,
        message_in: String,
        options: Option<PostOptions>,
    ) -> Call {
        Call::MessageCreate {
            app_id,
            message_in,
            idempotency_key: key_of(options),
            with_content: None,
        }
    }

    /// The server's default decides whether the response holds the payload.
    pub fn create(
        &self,
        app_id: String,
        message_in: String,
        options: Option<PostOptions>,
    ) -> (r: Request<'a>)
        ensures
            *r.cfg == self.config(),
            r.call == Self::create_call(app_id, message_in, options),
    {
        let idempotency_key = match options {
            Some(o) => o.idempotency_key,
            None => None,
        };
        let call = Call::MessageCreate {
            app_id,
            message_in,
            idempotency_key,
            with_content: None,
        };
        Request { cfg: self.cfg, call }
    }

    /// The wire parameters of [`Message::get`].
    pub open spec fn get_call(app_id: String, msg_id: String) -> Call {
        Call::MessageGet { app_id, msg_id, with_content: None }
    }

    /// The server's default decides whether the response holds the payload.
    pub fn get(&self, app_id: String, msg_id: String) -> (r: Request<'a>)
        ensures
            *r.cfg == self.config(),
            r.call == Self::get_call(app_id, msg_id),
    {
        let call = Call::MessageGet { app_id, msg_id, with_content: None };
        Request { cfg: self.cfg, call }
    }

    /// The wire parameters of [`Message::expunge_content`].
    pub open spec fn expunge_content_call(app_id: String, msg_id: String) -> Call {
        Call::MessageExpungeContent { app_id, msg_id }
    }

    pub fn expunge_content(&self, app_id: String, msg_id: String) -> (r: Request<'a>)
        ensures
            *r.cfg == self.config(),
            r.call == Self::expunge_content_call(app_id, msg_id),
    {
        let call = Call::MessageExpungeContent { app_id, msg_id };
        Request { cfg: self.cfg, call }
    }
}

} // verus!
