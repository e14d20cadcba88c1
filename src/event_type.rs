use vstd::prelude::*;

use crate::call::{key_of, Call, PostOptions, Request};
use crate::config::Configuration;
use crate::options::Ordering;

verus! {

/// Options of a call; every field left `None` is omitted from the request.
pub struct EventTypeListOptions {
    pub iterator: Option<String>,
    pub limit: Option<i32>,
    pub with_content: Option<bool>,
    pub include_archived: Option<bool>,
}

impl Default for EventTypeListOptions {
    fn default() -> (r: Self)
        ensures
            r.iterator is None,
            r.limit is None,
            r.with_content is None,
            r.include_archived is None,
    {
        EventTypeListOptions {
            iterator: None,
            limit: None,
            with_content: None,
            include_archived: None,
        }
    }
}

/// Operations on event types.
pub struct EventType<'a> {
    cfg: &'a Configuration,
}

impl<'a> EventType<'a> {
    pub(crate) fn new(cfg: &'a Configuration) -> (r: Self)
        ensures
            r.config() == *cfg,
    {
        Self { cfg }
    }

    /// The configuration that the requests of this sub-client carry.
    pub closed spec fn config(&self) -> Configuration {
        *self.cfg
    }

    /// The wire parameters of [`EventType::list`].
    pub open spec fn list_call(options: Option<EventTypeListOptions>) -> Call {
        match options {
            Some(o) => Call::EventTypeList {
                iterator: o.iterator,
                limit: o.limit,
                with_content: o.with_content,
                include_archived: o.include_archived,
                order: None,
            },
            None => Call::EventTypeList {
                iterator: None,
                limit: None,
                with_content: None,
                include_archived: None,
                order: None,
            },
        }
    }

    /// Lists event types in the server's default order.
    pub fn list(&self, options: Option<EventTypeListOptions>) -> (r: Request<'a>)
        ensures
            *r.cfg == self.config(),
            r.call == Self::list_call(options),
    {
        let o = match options {
            Some(o) => o,
            None => EventTypeListOptions::default(),
        };
        let call = Call::EventTypeList {
            iterator: o.iterator,
            limit: o.limit,
            with_content: o.with_content,
            include_archived: o.include_archived,
            order: None,
        };
        Request { cfg: self.cfg, call }
    }

    /// The wire parameters of [`EventType::create`].
    pub open spec fn create_call(event_type_in: String, options: Option<PostOptions>) -> Call {
        Call::EventTypeCreate { event_type_in, idempotency_key: key_of(options) }
    }

    pub fn create(&self, event_type_in: String, options: Option<PostOptions>) -> (r: Request<'a>)
        ensures
            *r.cfg == self.config(),
            r.call == Self::create_call(event_type_in, options),
    {
        let idempotency_key = match options {
            Some(o) => o.idempotency_key,
            None => None,
        };
        let call = Call::EventTypeCreate { event_type_in, idempotency_key };
        Request { cfg: self.cfg, call }
    }

    /// The wire parameters of [`EventType::get`].
    pub open spec fn get_call(event_type_name: String) -> Call {
        Call::EventTypeGet { event_type_name }
    }

    pub fn get(&self, event_type_name: String) -> (r: Request<'a>)
        ensures
            *r.cfg == self.config(),
            r.call == Self::get_call(event_type_name),
    {
        let call = Call::EventTypeGet { event_type_name };
        Request { cfg: self.cfg, call }
    }

    /// The wire parameters of [`EventType::update`].
    pub open spec fn update_call(event_type_name: String, event_type_update: String) -> Call {
        Call::EventTypeUpdate { event_type_name, event_type_update }
    }

    /// The options are accepted for symmetry with the other write
    /// operations and have no effect on the request.
    pub fn update(
        &self,
        event_type_name: String,
        event_type_update: String,
        _options: Option<PostOptions>,
    ) -> (r: Request<'a>)
        ensures
            *r.cfg == self.config(),
            r.call == Self::update_call(event_type_name, event_type_update),
    {
        let call = Call::EventTypeUpdate { event_type_name, event_type_update };
        Request { cfg: self.cfg, call }
    }

    /// The wire parameters of [`EventType::patch`].
    pub open spec fn patch_call(event_type_name: String, event_type_patch: String) -> Call {
        Call::EventTypePatch { event_type_name, event_type_patch }
    }

    /// The options are accepted for symmetry with the other write
    /// operations and have no effect on the request.
    pub fn patch(
        &self,
        event_type_name: String,
        event_type_patch: String,
        _options: Option<PostOptions>,
    ) -> (r: Request<'a>)
        ensures
            *r.cfg == self.config(),
            r.call == Self::patch_call(event_type_name, event_type_patch),
    {
        let call = Call::EventTypePatch { event_type_name, event_type_patch };
        Request { cfg: self.cfg, call }
    }

    /// The wire parameters of [`EventType::delete`].
    pub open spec fn delete_call(event_type_name: String) -> Call {
        Call::EventTypeDelete { event_type_name, expunge: None }
    }

    /// Archives the event type; its content is not expunged.
    pub fn delete(&self, event_type_name: String) -> (r: Request<'a>)
        ensures
            *r.cfg == self.config(),
            r.call == Self::delete_call(event_type_name),
    {
        let call = Call::EventTypeDelete { event_type_name, expunge: None };
        Request { cfg: self.cfg, call }
    }

    /// The wire parameters of [`EventType::import_openapi`].
    pub open spec fn import_openapi_call(
        event_type_import_open_api_in: String,
        options: Option<PostOptions>,
    ) -> Call {
        Call::EventTypeImportOpenapi {
            event_type_import_open_api_in,
            idempotency_key: key_of(options),
        }
    }

    pub fn import_openapi(
        &self,
        event_type_import_open_api_in: String,
        options: Option<PostOptions>,
    ) -> (r: Request<'a>)
        ensures
            *r.cfg == self.config(),
            r.call == Self::import_openapi_call(event_type_import_open_api_in, options),
    {
        let idempotency_key = match options {
            Some(o) => o.idempotency_key,
            None => None,
        };
        let call = Call::EventTypeImportOpenapi { event_type_import_open_api_in, idempotency_key };
        Request { cfg: self.cfg, call }
    }
}

} // verus!
