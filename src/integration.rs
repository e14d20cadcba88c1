use vstd::prelude::*;

use crate::call::{key_of, Call, PostOptions, Request};
use crate::config::Configuration;
use crate::options::Ordering;

verus! {

/// Options of a call; every field left `None` is omitted from the request.
pub struct IntegrationListOptions {
    pub iterator: Option<String>,
    pub limit: Option<i32>,
    pub order: Option<Ordering>,
}

impl Default for IntegrationListOptions {
    fn default() -> (r: Self)
        ensures
            r.iterator is None,
            r.limit is None,
            r.order is None,
    {
        IntegrationListOptions {
            iterator: None,
            limit: None,
            order: None,
        }
    }
}

/// Operations on the integrations of an application.
pub struct Integration<'a> {
    cfg: &'a Configuration,
}

impl<'a> Integration<'a> {
    pub(crate) fn new(cfg: &'a Configuration) -> (r: Self)
        ensures
            r.config() == *cfg,
    {
        Self { cfg }
    }

    /// The configuration that the requests of this sub-client carry.
    pub closed spec fn config(&self) -> Configuration {
        *self.cfg
    }

    /// The wire parameters of [`Integration::list`].
    pub open spec fn list_call(app_id: String, options: Option<IntegrationListOptions>) -> Call {
        match options {
            Some(o) => Call::IntegrationList {
                app_id,
                iterator: o.iterator,
                limit: o.limit,
                order: o.order,
            },
            None => Call::IntegrationList {
                app_id,
                iterator: None,
                limit: None,
                order: None,
            },
        }
    }

    pub fn list(&self, app_id: String, options: Option<IntegrationListOptions>) -> (r: Request<'a>)
        ensures
            *r.cfg == self.config(),
            r.call == Self::list_call(app_id, options),
    {
        let o = match options {
            Some(o) => o,
            None => IntegrationListOptions::default(),
        };
        let call = Call::IntegrationList {
            app_id,
            iterator: o.iterator,
            limit: o.limit,
            order: o.order,
        };
        Request { cfg: self.cfg, call }
    }

    /// The wire parameters of [`Integration::create`].
    pub open spec fn create_call(
        app_id: String,
        integration_in: String,
        options: Option<PostOptions>,
    ) -> Call {
        Call::IntegrationCreate {
            app_id,
            integration_in,
            idempotency_key: key_of(options),
        }
    }

    pub fn create(
        &self,
        app_id: String,
        integration_in: String,
        options: Option<PostOptions>,
    ) -> (r: Request<'a>)
        ensures
            *r.cfg == self.config(),
            r.call == Self::create_call(app_id, integration_in, options),
    {
        let idempotency_key = match options {
            Some(o) => o.idempotency_key,
            None => None,
        };
        let call = Call::IntegrationCreate { app_id, integration_in, idempotency_key };
        Request { cfg: self.cfg, call }
    }

    /// The wire parameters of [`Integration::get`].
    pub open spec fn get_call(app_id: String, integ_id: String) -> Call {
        Call::IntegrationGet { app_id, integ_id }
    }

    pub fn get(&self, app_id: String, integ_id: String) -> (r: Request<'a>)
        ensures
            *r.cfg == self.config(),
            r.call == Self::get_call(app_id, integ_id),
    {
        let call = Call::IntegrationGet { app_id, integ_id };
        Request { cfg: self.cfg, call }
    }

    /// The wire parameters of [`Integration::update`].
    pub open spec fn update_call(
        app_id: String,
        integ_id: String,
        integration_update: String,
    ) -> Call {
        Call::IntegrationUpdate { app_id, integ_id, integration_update }
    }

    /// The options are accepted for symmetry with the other write
    /// operations and have no effect on the request.
    pub fn update(
        &self,
        app_id: String,
        integ_id: String,
        integration_update: String,
        _options: Option<PostOptions>,
    ) -> (r: Request<'a>)
        ensures
            *r.cfg == self.config(),
            r.call == Self::update_call(app_id, integ_id, integration_update),
    {
        let call = Call::IntegrationUpdate { app_id, integ_id, integration_update };
        Request { cfg: self.cfg, call }
    }

    /// The wire parameters of [`Integration::delete`].
    pub open spec fn delete_call(app_id: String, integ_id: String) -> Call {
        Call::IntegrationDelete { app_id, integ_id }
    }

    pub fn delete(&self, app_id: String, integ_id: String) -> (r: Request<'a>)
        ensures
            *r.cfg == self.config(),
            r.call == Self::delete_call(app_id, integ_id),
    {
        let call = Call::IntegrationDelete { app_id, integ_id };
        Request { cfg: self.cfg, call }
    }

    /// The wire parameters of [`Integration::get_key`].
    pub open spec fn get_key_call(app_id: String, integ_id: String) -> Call {
        Call::IntegrationGetKey { app_id, integ_id }
    }

    pub fn get_key(&self, app_id: String, integ_id: String) -> (r: Request<'a>)
        ensures
            *r.cfg == self.config(),
            r.call == Self::get_key_call(app_id, integ_id),
    {
        let call = Call::IntegrationGetKey { app_id, integ_id };
        Request { cfg: self.cfg, call }
    }

    /// The wire parameters of [`Integration::rotate_key`].
    pub open spec fn rotate_key_call(app_id: String, integ_id: String) -> Call {
        Call::IntegrationRotateKey { app_id, integ_id, idempotency_key: None }
    }

    /// Sent without an idempotency key.
    pub fn rotate_key(&self, app_id: String, integ_id: String) -> (r: Request<'a>)
        ensures
            *r.cfg == self.config(),
            r.call == Self::rotate_key_call(app_id, integ_id),
    {
        let call = Call::IntegrationRotateKey { app_id, integ_id, idempotency_key: None };
        Request { cfg: self.cfg, call }
    }
}

} // verus!
