use vstd::prelude::*;

use crate::call::{key_of, Call, PostOptions, Request};
use crate::config::Configuration;

verus! {

/// Operations that issue and revoke access.
pub struct Authentication<'a> {
    cfg: &'a Configuration,
}

impl<'a> Authentication<'a> {
    pub(crate) fn new(cfg: &'a Configuration) -> (r: Self)
        ensures
            r.config() == *cfg,
    {
        Self { cfg }
    }

    /// The configuration that the requests of this sub-client carry.
    pub closed spec fn config(&self) -> Configuration {
        *self.cfg
    }

    /// The wire parameters of [`Authentication::dashboard_access`].
    pub open spec fn dashboard_access_call(app_id: String, options: Option<PostOptions>) -> Call {
        Call::AuthenticationDashboardAccess { app_id, idempotency_key: key_of(options) }
    }

    pub fn dashboard_access(&self, app_id: String, options: Option<PostOptions>) -> (r: Request<'a>)
        ensures
            *r.cfg == self.config(),
            r.call == Self::dashboard_access_call(app_id, options),
    {
        let idempotency_key = match options {
            Some(o) => o.idempotency_key,
            None => None,
        };
        let call = Call::AuthenticationDashboardAccess { app_id, idempotency_key };
        Request { cfg: self.cfg, call }
    }

    /// The wire parameters of [`Authentication::app_portal_access`].
    pub open spec fn app_portal_access_call(
        app_id: String,
        app_portal_access_in: String,
        options: Option<PostOptions>,
    ) -> Call {
        Call::AuthenticationAppPortalAccess {
            app_id,
            app_portal_access_in,
            idempotency_key: key_of(options),
        }
    }

    pub fn app_portal_access(
        &self,
        app_id: String,
        app_portal_access_in: String,
        options: Option<PostOptions>,
    ) -> (r: Request<'a>)
        ensures
            *r.cfg == self.config(),
            r.call == Self::app_portal_access_call(app_id, app_portal_access_in, options),
    {
        let idempotency_key = match options {
            Some(o) => o.idempotency_key,
            None => None,
        };
        let call = Call::AuthenticationAppPortalAccess {
            app_id,
            app_portal_access_in,
            idempotency_key,
        };
        Request { cfg: self.cfg, call }
    }

    /// The wire parameters of [`Authentication::logout`].
    pub open spec fn logout_call(options: Option<PostOptions>) -> Call {
        Call::AuthenticationLogout { idempotency_key: key_of(options) }
    }

    pub fn logout(&self, options: Option<PostOptions>) -> (r: Request<'a>)
        ensures
            *r.cfg == self.config(),
            r.call == Self::logout_call(options),
    {
        let idempotency_key = match options {
            Some(o) => o.idempotency_key,
            None => None,
        };
        let call = Call::AuthenticationLogout { idempotency_key };
        Request { cfg: self.cfg, call }
    }
}

} // verus!
