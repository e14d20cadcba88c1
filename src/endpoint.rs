use vstd::prelude::*;

use crate::call::{key_of, Call, PostOptions, Request};
use crate::config::Configuration;
use crate::options::Ordering;

verus! {

/// Options of a call; every field left `None` is omitted from the request.
pub struct EndpointListOptions {
    pub iterator: Option<String>,
    pub limit: Option<i32>,
    pub order: Option<Ordering>,
}

impl Default for EndpointListOptions {
    fn default() -> (r: Self)
        ensures
            r.iterator is None,
            r.limit is None,
            r.order is None,
    {
        EndpointListOptions {
            iterator: None,
            limit: None,
            order: None,
        }
    }
}

/// Options of a call; every field left `None` is omitted from the request.
pub struct EndpointStatsOptions {
    pub since: Option<String>,
    pub until: Option<String>,
}

impl Default for EndpointStatsOptions {
    fn default() -> (r: Self)
        ensures
            r.since is None,
            r.until is None,
    {
        EndpointStatsOptions {
            since: None,
            until: None,
        }
    }
}

/// Operations on the endpoints of an application.
pub struct Endpoint<'a> {
    cfg: &'a Configuration,
}

impl<'a> Endpoint<'a> {
    pub(crate) fn new(cfg: &'a Configuration) -> (r: Self)
        ensures
            r.config() == *cfg,
    {
        Self { cfg }
    }

    /// The configuration that the requests of this sub-client carry.
    pub closed spec fn config(&self) -> Configuration {
        *self.cfg
    }

    /// The wire parameters of [`Endpoint::list`].
    pub open spec fn list_call(app_id: String, options: Option<EndpointListOptions>) -> Call {
        match options {
            Some(o) => Call::EndpointList {
                app_id,
                iterator: o.iterator,
                limit: o.limit,
                order: o.order,
            },
            None => Call::EndpointList {
                app_id,
                iterator: None,
                limit: None,
                order: None,
            },
        }
    }

    pub fn list(&self, app_id: String, options: Option<EndpointListOptions>) -> (r: Request<'a>)
        ensures
            *r.cfg == self.config(),
            r.call == Self::list_call(app_id, options),
    {
        let o = match options {
            Some(o) => o,
            None => EndpointListOptions::default(),
        };
        let call = Call::EndpointList {
            app_id,
            iterator: o.iterator,
            limit: o.limit,
            order: o.order,
        };
        Request { cfg: self.cfg, call }
    }

    /// The wire parameters of [`Endpoint::create`].
    pub open spec fn create_call(
        app_id: String,
        endpoint_in: String,
        options: Option<PostOptions>,
    ) -> Call {
        Call::EndpointCreate { app_id, endpoint_in, idempotency_key: key_of(options) }
    }

    pub fn create(
        &self,
        app_id: String,
        endpoint_in: String,
        options: Option<PostOptions>,
    ) -> (r: Request<'a>)
        ensures
            *r.cfg == self.config(),
            r.call == Self::create_call(app_id, endpoint_in, options),
    {
        let idempotency_key = match options {
            Some(o) => o.idempotency_key,
            None => None,
        };
        let call = Call::EndpointCreate { app_id, endpoint_in, idempotency_key };
        Request { cfg: self.cfg, call }
    }

    /// The wire parameters of [`Endpoint::get`].
    pub open spec fn get_call(app_id: String, endpoint_id: String) -> Call {
        Call::EndpointGet { app_id, endpoint_id }
    }

    pub fn get(&self, app_id: String, endpoint_id: String) -> (r: Request<'a>)
        ensures
            *r.cfg == self.config(),
            r.call == Self::get_call(app_id, endpoint_id),
    {
        let call = Call::EndpointGet { app_id, endpoint_id };
        Request { cfg: self.cfg, call }
    }

    /// The wire parameters of [`Endpoint::update`].
    pub open spec fn update_call(
        app_id: String,
        endpoint_id: String,
        endpoint_update: String,
    ) -> Call {
        Call::EndpointUpdate { app_id, endpoint_id, endpoint_update }
    }

    /// The options are accepted for symmetry with the other write
    /// operations and have no effect on the request.
    pub fn update(
        &self,
        app_id: String,
        endpoint_id: String,
        endpoint_update: String,
        _options: Option<PostOptions>,
    ) -> (r: Request<'a>)
        ensures
            *r.cfg == self.config(),
            r.call == Self::update_call(app_id, endpoint_id, endpoint_update),
    {
        let call = Call::EndpointUpdate { app_id, endpoint_id, endpoint_update };
        Request { cfg: self.cfg, call }
    }

    /// The wire parameters of [`Endpoint::patch`].
    pub open spec fn patch_call(
        app_id: String,
        endpoint_id: String,
        endpoint_patch: String,
    ) -> Call {
        Call::EndpointPatch { app_id, endpoint_id, endpoint_patch }
    }

    /// The options are accepted for symmetry with the other write
    /// operations and have no effect on the request.
    pub fn patch(
        &self,
        app_id: String,
        endpoint_id: String,
        endpoint_patch: String,
        _options: Option<PostOptions>,
    ) -> (r: Request<'a>)
        ensures
            *r.cfg == self.config(),
            r.call == Self::patch_call(app_id, endpoint_id, endpoint_patch),
    {
        let call = Call::EndpointPatch { app_id, endpoint_id, endpoint_patch };
        Request { cfg: self.cfg, call }
    }

    /// The wire parameters of [`Endpoint::delete`].
    pub open spec fn delete_call(app_id: String, endpoint_id: String) -> Call {
        Call::EndpointDelete { app_id, endpoint_id }
    }

    pub fn delete(&self, app_id: String, endpoint_id: String) -> (r: Request<'a>)
        ensures
            *r.cfg == self.config(),
            r.call == Self::delete_call(app_id, endpoint_id),
    {
        let call = Call::EndpointDelete { app_id, endpoint_id };
        Request { cfg: self.cfg, call }
    }

    /// The wire parameters of [`Endpoint::get_secret`].
    pub open spec fn get_secret_call(app_id: String, endpoint_id: String) -> Call {
        Call::EndpointGetSecret { app_id, endpoint_id }
    }

    pub fn get_secret(&self, app_id: String, endpoint_id: String) -> (r: Request<'a>)
        ensures
            *r.cfg == self.config(),
            r.call == Self::get_secret_call(app_id, endpoint_id),
    {
        let call = Call::EndpointGetSecret { app_id, endpoint_id };
        Request { cfg: self.cfg, call }
    }

    /// The wire parameters of [`Endpoint::rotate_secret`].
    pub open spec fn rotate_secret_call(
        app_id: String,
        endpoint_id: String,
        endpoint_secret_rotate_in: String,
    ) -> Call {
        Call::EndpointRotateSecret {
            app_id,
            endpoint_id,
            endpoint_secret_rotate_in,
            idempotency_key: None,
        }
    }

    /// Sent without an idempotency key.
    pub fn rotate_secret(
        &self,
        app_id: String,
        endpoint_id: String,
        endpoint_secret_rotate_in: String,
    ) -> (r: Request<'a>)
        ensures
            *r.cfg == self.config(),
            r.call == Self::rotate_secret_call(app_id, endpoint_id, endpoint_secret_rotate_in),
    {
        let call = Call::EndpointRotateSecret {
            app_id,
            endpoint_id,
            endpoint_secret_rotate_in,
            idempotency_key: None,
        };
        Request { cfg: self.cfg, call }
    }

    /// The wire parameters of [`Endpoint::recover`].
    pub open spec fn recover_call(app_id: String, endpoint_id: String, recover_in: String) -> Call {
        Call::EndpointRecover {
            app_id,
            endpoint_id,
            recover_in,
            idempotency_key: None,
        }
    }

    /// The response body is of no interest: pass the dispatch result through
    /// [`discard_body`](crate::discard_body).
    pub fn recover(
        &self,
        app_id: String,
        endpoint_id: String,
        recover_in: String,
    ) -> (r: Request<'a>)
        ensures
            *r.cfg == self.config(),
            r.call == Self::recover_call(app_id, endpoint_id, recover_in),
    {
        let call = Call::EndpointRecover {
            app_id,
            endpoint_id,
            recover_in,
            idempotency_key: None,
        };
        Request { cfg: self.cfg, call }
    }

    /// The wire parameters of [`Endpoint::get_headers`].
    pub open spec fn get_headers_call(app_id: String, endpoint_id: String) -> Call {
        Call::EndpointGetHeaders { app_id, endpoint_id }
    }

    pub fn get_headers(&self, app_id: String, endpoint_id: String) -> (r: Request<'a>)
        ensures
            *r.cfg == self.config(),
            r.call == Self::get_headers_call(app_id, endpoint_id),
    {
        let call = Call::EndpointGetHeaders { app_id, endpoint_id };
        Request { cfg: self.cfg, call }
    }

    /// The wire parameters of [`Endpoint::update_headers`].
    pub open spec fn update_headers_call(
        app_id: String,
        endpoint_id: String,
        endpoint_headers_in: String,
    ) -> Call {
        Call::EndpointUpdateHeaders { app_id, endpoint_id, endpoint_headers_in }
    }

    pub fn update_headers(
        &self,
        app_id: String,
        endpoint_id: String,
        endpoint_headers_in: String,
    ) -> (r: Request<'a>)
        ensures
            *r.cfg == self.config(),
            r.call == Self::update_headers_call(app_id, endpoint_id, endpoint_headers_in),
    {
        let call = Call::EndpointUpdateHeaders { app_id, endpoint_id, endpoint_headers_in };
        Request { cfg: self.cfg, call }
    }

    /// The wire parameters of [`Endpoint::patch_headers`].
    pub open spec fn patch_headers_call(
        app_id: String,
        endpoint_id: String,
        endpoint_headers_patch_in: String,
    ) -> Call {
        Call::EndpointPatchHeaders { app_id, endpoint_id, endpoint_headers_patch_in }
    }

    pub fn patch_headers(
        &self,
        app_id: String,
        endpoint_id: String,
        endpoint_headers_patch_in: String,
    ) -> (r: Request<'a>)
        ensures
            *r.cfg == self.config(),
            r.call == Self::patch_headers_call(app_id, endpoint_id, endpoint_headers_patch_in),
    {
        let call = Call::EndpointPatchHeaders { app_id, endpoint_id, endpoint_headers_patch_in };
        Request { cfg: self.cfg, call }
    }

    /// The wire parameters of [`Endpoint::get_stats`].
    pub open spec fn get_stats_call(
        app_id: String,
        endpoint_id: String,
        options: Option<EndpointStatsOptions>,
    ) -> Call {
        match options {
            Some(o) => Call::EndpointGetStats {
                app_id,
                endpoint_id,
                since: o.since,
                until: o.until,
            },
            None => Call::EndpointGetStats {
                app_id,
                endpoint_id,
                since: None,
                until: None,
            },
        }
    }

    pub fn get_stats(
        &self,
        app_id: String,
        endpoint_id: String,
        options: Option<EndpointStatsOptions>,
    ) -> (r: Request<'a>)
        ensures
            *r.cfg == self.config(),
            r.call == Self::get_stats_call(app_id, endpoint_id, options),
    {
        let o = match options {
            Some(o) => o,
            None => EndpointStatsOptions::default(),
        };
        let call = Call::EndpointGetStats {
            app_id,
            endpoint_id,
            since: o.since,
            until: o.until,
        };
        Request { cfg: self.cfg, call }
    }

    /// The wire parameters of [`Endpoint::replay_missing`].
    pub open spec fn replay_missing_call(
        app_id: String,
        endpoint_id: String,
        replay_in: String,
        options: Option<PostOptions>,
    ) -> Call {
        Call::EndpointReplay {
            app_id,
            endpoint_id,
            replay_in,
            idempotency_key: key_of(options),
        }
    }

    /// The response body is of no interest: pass the dispatch result through
    /// [`discard_body`](crate::discard_body).
    pub fn replay_missing(
        &self,
        app_id: String,
        endpoint_id: String,
        replay_in: String,
        options: Option<PostOptions>,
    ) -> (r: Request<'a>)
        ensures
            *r.cfg == self.config(),
            r.call == Self::replay_missing_call(app_id, endpoint_id, replay_in, options),
    {
        let idempotency_key = match options {
            Some(o) => o.idempotency_key,
            None => None,
        };
        let call = Call::EndpointReplay {
            app_id,
            endpoint_id,
            replay_in,
            idempotency_key,
        };
        Request { cfg: self.cfg, call }
    }

    /// The wire parameters of [`Endpoint::transformation_get`].
    pub open spec fn transformation_get_call(app_id: String, endpoint_id: String) -> Call {
        Call::EndpointTransformationGet { app_id, endpoint_id }
    }

    pub fn transformation_get(&self, app_id: String, endpoint_id: String) -> (r: Request<'a>)
        ensures
            *r.cfg == self.config(),
            r.call == Self::transformation_get_call(app_id, endpoint_id),
    {
        let call = Call::EndpointTransformationGet { app_id, endpoint_id };
        Request { cfg: self.cfg, call }
    }

    /// The wire parameters of [`Endpoint::transformation_partial_update`].
    pub open spec fn transformation_partial_update_call(
        app_id: String,
        endpoint_id: String,
        endpoint_transformation_in: String,
    ) -> Call {
        Call::EndpointTransformationPartialUpdate {
            app_id,
            endpoint_id,
            endpoint_transformation_in,
        }
    }

    /// The response body is of no interest: pass the dispatch result through
    /// [`discard_body`](crate::discard_body).
    pub fn transformation_partial_update(
        &self,
        app_id: String,
        endpoint_id: String,
        endpoint_transformation_in: String,
    ) -> (r: Request<'a>)
        ensures
            *r.cfg == self.config(),
            r.call == Self::transformation_partial_update_call(
                app_id,
                endpoint_id,
                endpoint_transformation_in,
            ),
    {
        let call = Call::EndpointTransformationPartialUpdate {
            app_id,
            endpoint_id,
            endpoint_transformation_in,
        };
        Request { cfg: self.cfg, call }
    }

    /// The wire parameters of [`Endpoint::send_example`].
    pub open spec fn send_example_call(
        app_id: String,
        endpoint_id: String,
        event_example_in: String,
        options: Option<PostOptions>,
    ) -> Call {
        Call::EndpointSendExample {
            app_id,
            endpoint_id,
            event_example_in,
            idempotency_key: key_of(options),
        }
    }

    pub fn send_example(
        &self,
        app_id: String,
        endpoint_id: String,
        event_example_in: String,
        options: Option<PostOptions>,
    ) -> (r: Request<'a>)
        ensures
            *r.cfg == self.config(),
            r.call == Self::send_example_call(app_id, endpoint_id, event_example_in, options),
    {
        let idempotency_key = match options {
            Some(o) => o.idempotency_key,
            None => None,
        };
        let call = Call::EndpointSendExample {
            app_id,
            endpoint_id,
            event_example_in,
            idempotency_key,
        };
        Request { cfg: self.cfg, call }
    }
}

} // verus!
