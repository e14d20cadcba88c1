use vstd::prelude::*;

use crate::call::{key_of, Call, PostOptions, Request};
use crate::config::Configuration;
use crate::options::Ordering;

verus! {

/// Options of a call; every field left `None` is omitted from the request.
pub struct ApplicationListOptions {
    pub iterator: Option<String>,
    pub limit: Option<i32>,
    pub order: Option<Ordering>,
}

impl Default for ApplicationListOptions {
    fn default() -> (r: Self)
        ensures
            r.iterator is None,
            r.limit is None,
            r.order is None,
    {
        ApplicationListOptions {
            iterator: None,
            limit: None,
            order: None,
        }
    }
}

/// Operations on applications.
pub struct Application<'a> {
    cfg: &'a Configuration,
}

impl<'a> Application<'a> {
    pub(crate) fn new(cfg: &'a Configuration) -> (r: Self)
        ensures
            r.config() == *cfg,
    {
        Self { cfg }
    }

    /// The configuration that the requests of this sub-client carry.
    pub closed spec fn config(&self) -> Configuration {
        *self.cfg
    }

    /// The wire parameters of [`Application::list`].
    pub open spec fn list_call(options: Option<ApplicationListOptions>) -> Call {
        match options {
            Some(o) => Call::ApplicationList {
                iterator: o.iterator,
                limit: o.limit,
                order: o.order,
            },
            None => Call::ApplicationList { iterator: None, limit: None, order: None },
        }
    }

    pub fn list(&self, options: Option<ApplicationListOptions>) -> (r: Request<'a>)
        ensures
            *r.cfg == self.config(),
            r.call == Self::list_call(options),
    {
        let o = match options {
            Some(o) => o,
            None => ApplicationListOptions::default(),
        };
        let call = Call::ApplicationList { iterator: o.iterator, limit: o.limit, order: o.order };
        Request { cfg: self.cfg, call }
    }

    /// The wire parameters of [`Application::create`].
    pub open spec fn create_call(application_in: String, options: Option<PostOptions>) -> Call {
        Call::ApplicationCreate {
            application_in,
            idempotency_key: key_of(options),
            get_if_exists: None,
        }
    }

    /// Creates an application; fails on the remote side if it already exists.
    pub fn create(&self, application_in: String, options: Option<PostOptions>) -> (r: Request<'a>)
        ensures
            *r.cfg == self.config(),
            r.call == Self::create_call(application_in, options),
    {
        let idempotency_key = match options {
            Some(o) => o.idempotency_key,
            None => None,
        };
        let call = Call::ApplicationCreate { application_in, idempotency_key, get_if_exists: None };
        Request { cfg: self.cfg, call }
    }

    /// The wire parameters of [`Application::get_or_create`].
    pub open spec fn get_or_create_call(
        application_in: String,
        options: Option<PostOptions>,
    ) -> Call {
        Call::ApplicationCreate {
            application_in,
            idempotency_key: key_of(options),
            get_if_exists: Some(true),
        }
    }

    /// Creates an application, or returns the existing one with the same uid.
    pub fn get_or_create(
        &self,
        application_in: String,
        options: Option<PostOptions>,
    ) -> (r: Request<'a>)
        ensures
            *r.cfg == self.config(),
            r.call == Self::get_or_create_call(application_in, options),
    {
        let idempotency_key = match options {
            Some(o) => o.idempotency_key,
            None => None,
        };
        let call = Call::ApplicationCreate {
            application_in,
            idempotency_key,
            get_if_exists: Some(true),
        };
        Request { cfg: self.cfg, call }
    }

    /// The wire parameters of [`Application::get`].
    pub open spec fn get_call(app_id: String) -> Call {
        Call::ApplicationGet { app_id }
    }

    pub fn get(&self, app_id: String) -> (r: Request<'a>)
        ensures
            *r.cfg == self.config(),
            r.call == Self::get_call(app_id),
    {
        let call = Call::ApplicationGet { app_id };
        Request { cfg: self.cfg, call }
    }

    /// The wire parameters of [`Application::update`].
    pub open spec fn update_call(app_id: String, application_in: String) -> Call {
        Call::ApplicationUpdate { app_id, application_in }
    }

    /// The options are accepted for symmetry with the other write
    /// operations and have no effect on the request.
    pub fn update(
        &self,
        app_id: String,
        application_in: String,
        _options: Option<PostOptions>,
    ) -> (r: Request<'a>)
        ensures
            *r.cfg == self.config(),
            r.call == Self::update_call(app_id, application_in),
    {
        let call = Call::ApplicationUpdate { app_id, application_in };
        Request { cfg: self.cfg, call }
    }

    /// The wire parameters of [`Application::patch`].
    pub open spec fn patch_call(app_id: String, application_patch: String) -> Call {
        Call::ApplicationPatch { app_id, application_patch }
    }

    /// The options are accepted for symmetry with the other write
    /// operations and have no effect on the request.
    pub fn patch(
        &self,
        app_id: String,
        application_patch: String,
        _options: Option<PostOptions>,
    ) -> (r: Request<'a>)
        ensures
            *r.cfg == self.config(),
            r.call == Self::patch_call(app_id, application_patch),
    {
        let call = Call::ApplicationPatch { app_id, application_patch };
        Request { cfg: self.cfg, call }
    }

    /// The wire parameters of [`Application::delete`].
    pub open spec fn delete_call(app_id: String) -> Call {
        Call::ApplicationDelete { app_id }
    }

    pub fn delete(&self, app_id: String) -> (r: Request<'a>)
        ensures
            *r.cfg == self.config(),
            r.call == Self::delete_call(app_id),
    {
        let call = Call::ApplicationDelete { app_id };
        Request { cfg: self.cfg, call }
    }
}

} // verus!
