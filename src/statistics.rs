use vstd::prelude::*;

use crate::call::{key_of, Call, PostOptions, Request};
use crate::config::Configuration;

verus! {

/// The mandatory body of [`Statistics::aggregate_app_stats`].
pub struct AggregateAppStatsOptions {
    pub app_ids: Option<Vec<String>>,
    pub since: String,
    pub until: String,
}

/// Operations that aggregate usage statistics.
pub struct Statistics<'a> {
    cfg: &'a Configuration,
}

impl<'a> Statistics<'a> {
    pub(crate) fn new(cfg: &'a Configuration) -> (r: Self)
        ensures
            r.config() == *cfg,
    {
        Self { cfg }
    }

    /// The configuration that the requests of this sub-client carry.
    pub closed spec fn config(&self) -> Configuration {
        *self.cfg
    }

    /// The wire parameters of [`Statistics::aggregate_app_stats`].
    pub open spec fn aggregate_app_stats_call(
        stats: AggregateAppStatsOptions,
        options: Option<PostOptions>,
    ) -> Call {
        Call::StatisticsAggregateAppStats {
            app_ids: stats.app_ids,
            since: stats.since,
            until: stats.until,
            idempotency_key: key_of(options),
        }
    }

    /// Unlike the other operations, this one takes its time range as a
    /// required argument: the remote operation has two mandatory parameters.
    pub fn aggregate_app_stats(
        &self,
        stats: AggregateAppStatsOptions,
        options: Option<PostOptions>,
    ) -> (r: Request<'a>)
        ensures
            *r.cfg == self.config(),
            r.call == Self::aggregate_app_stats_call(stats, options),
    {
        let AggregateAppStatsOptions { app_ids, since, until } = stats;
        let idempotency_key = match options {
            Some(o) => o.idempotency_key,
            None => None,
        };
        let call = Call::StatisticsAggregateAppStats { app_ids, since, until, idempotency_key };
        Request { cfg: self.cfg, call }
    }

    pub fn aggregate_event_types(&self) -> (r: Request<'a>)
        ensures
            *r.cfg == self.config(),
            r.call == Call::StatisticsAggregateEventTypes,
    {
        Request { cfg: self.cfg, call: Call::StatisticsAggregateEventTypes }
    }
}

} // verus!
