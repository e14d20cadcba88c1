use vstd::prelude::*;

use crate::call::{key_of, Call, PostOptions, Request};
use crate::config::Configuration;
use crate::options::Ordering;

verus! {

/// Options of a call; every field left `None` is omitted from the request.
pub struct OperationalWebhookEndpointListOptions {
    pub iterator: Option<String>,
    pub limit: Option<i32>,
    pub order: Option<Ordering>,
}

impl Default for OperationalWebhookEndpointListOptions {
    fn default() -> (r: Self)
        ensures
            r.iterator is None,
            r.limit is None,
            r.order is None,
    {
        OperationalWebhookEndpointListOptions {
            iterator: None,
            limit: None,
            order: None,
        }
    }
}

/// Operations on the endpoints that receive operational webhooks.
pub struct OperationalWebhookEndpoint<'a> {
    cfg: &'a Configuration,
}

impl<'a> OperationalWebhookEndpoint<'a> {
    pub(crate) fn new(cfg: &'a Configuration) -> (r: Self)
        ensures
            r.config() == *cfg,
    {
        Self { cfg }
    }

    /// The configuration that the requests of this sub-client carry.
    pub closed spec fn config(&self) -> Configuration {
        *self.cfg
    }

    /// The wire parameters of [`OperationalWebhookEndpoint::list`].
    pub open spec fn list_call(options: Option<OperationalWebhookEndpointListOptions>) -> Call {
        match options {
            Some(o) => Call::OperationalWebhookEndpointList {
                iterator: o.iterator,
                limit: o.limit,
                order: o.order,
            },
            None => Call::OperationalWebhookEndpointList {
                iterator: None,
                limit: None,
                order: None,
            },
        }
    }

    pub fn list(&self, options: Option<OperationalWebhookEndpointListOptions>) -> (r: Request<'a>)
        ensures
            *r.cfg == self.config(),
            r.call == Self::list_call(options),
    {
        let o = match options {
            Some(o) => o,
            None => OperationalWebhookEndpointListOptions::default(),
        };
        let call = Call::OperationalWebhookEndpointList {
            iterator: o.iterator,
            limit: o.limit,
            order: o.order,
        };
        Request { cfg: self.cfg, call }
    }

    /// The wire parameters of [`OperationalWebhookEndpoint::create`].
    pub open spec fn create_call(endpoint_in: String, options: Option<PostOptions>) -> Call {
        Call::OperationalWebhookEndpointCreate {
            endpoint_in,
            idempotency_key: key_of(options),
        }
    }

    pub fn create(&self, endpoint_in: String, options: Option<PostOptions>) -> (r: Request<'a>)
        ensures
            *r.cfg == self.config(),
            r.call == Self::create_call(endpoint_in, options),
    {
        let idempotency_key = match options {
            Some(o) => o.idempotency_key,
            None => None,
        };
        let call = Call::OperationalWebhookEndpointCreate { endpoint_in, idempotency_key };
        Request { cfg: self.cfg, call }
    }

    /// The wire parameters of [`OperationalWebhookEndpoint::get`].
    pub open spec fn get_call(endpoint_id: String) -> Call {
        Call::OperationalWebhookEndpointGet { endpoint_id }
    }

    pub fn get(&self, endpoint_id: String) -> (r: Request<'a>)
        ensures
            *r.cfg == self.config(),
            r.call == Self::get_call(endpoint_id),
    {
        let call = Call::OperationalWebhookEndpointGet { endpoint_id };
        Request { cfg: self.cfg, call }
    }

    /// The wire parameters of [`OperationalWebhookEndpoint::update`].
    pub open spec fn update_call(endpoint_id: String, endpoint_update: String) -> Call {
        Call::OperationalWebhookEndpointUpdate { endpoint_id, endpoint_update }
    }

    /// The options are accepted for symmetry with the other write
    /// operations and have no effect on the request.
    pub fn update(
        &self,
        endpoint_id: String,
        endpoint_update: String,
        _options: Option<PostOptions>,
    ) -> (r: Request<'a>)
        ensures
            *r.cfg == self.config(),
            r.call == Self::update_call(endpoint_id, endpoint_update),
    {
        let call = Call::OperationalWebhookEndpointUpdate { endpoint_id, endpoint_update };
        Request { cfg: self.cfg, call }
    }

    /// The wire parameters of [`OperationalWebhookEndpoint::delete`].
    pub open spec fn delete_call(endpoint_id: String) -> Call {
        Call::OperationalWebhookEndpointDelete { endpoint_id }
    }

    pub fn delete(&self, endpoint_id: String) -> (r: Request<'a>)
        ensures
            *r.cfg == self.config(),
            r.call == Self::delete_call(endpoint_id),
    {
        let call = Call::OperationalWebhookEndpointDelete { endpoint_id };
        Request { cfg: self.cfg, call }
    }

    /// The wire parameters of [`OperationalWebhookEndpoint::get_secret`].
    pub open spec fn get_secret_call(endpoint_id: String) -> Call {
        Call::OperationalWebhookEndpointGetSecret { endpoint_id }
    }

    pub fn get_secret(&self, endpoint_id: String) -> (r: Request<'a>)
        ensures
            *r.cfg == self.config(),
            r.call == Self::get_secret_call(endpoint_id),
    {
        let call = Call::OperationalWebhookEndpointGetSecret { endpoint_id };
        Request { cfg: self.cfg, call }
    }

    /// The wire parameters of [`OperationalWebhookEndpoint::rotate_secret`].
    pub open spec fn rotate_secret_call(
        endpoint_id: String,
        endpoint_secret_rotate_in: String,
    ) -> Call {
        Call::OperationalWebhookEndpointRotateSecret {
            endpoint_id,
            endpoint_secret_rotate_in,
            idempotency_key: None,
        }
    }

    /// Sent without an idempotency key.
    pub fn rotate_secret(
        &self,
        endpoint_id: String,
        endpoint_secret_rotate_in: String,
    ) -> (r: Request<'a>)
        ensures
            *r.cfg == self.config(),
            r.call == Self::rotate_secret_call(endpoint_id, endpoint_secret_rotate_in),
    {
        let call = Call::OperationalWebhookEndpointRotateSecret {
            endpoint_id,
            endpoint_secret_rotate_in,
            idempotency_key: None,
        };
        Request { cfg: self.cfg, call }
    }
}

} // verus!
