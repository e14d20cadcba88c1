use vstd::prelude::*;

use crate::call::{Call, Request};
use crate::config::Configuration;
use crate::options::{BackgroundTaskStatus, BackgroundTaskType, Ordering};

verus! {

/// Options of a call; every field left `None` is omitted from the request.
pub struct BackgroundTaskListOptions {
    pub iterator: Option<String>,
    pub limit: Option<i32>,
    pub order: Option<Ordering>,
    pub status: Option<BackgroundTaskStatus>,
    pub task: Option<BackgroundTaskType>,
}

impl Default for BackgroundTaskListOptions {
    fn default() -> (r: Self)
        ensures
            r.iterator is None,
            r.limit is None,
            r.order is None,
            r.status is None,
            r.task is None,
    {
        BackgroundTaskListOptions {
            iterator: None,
            limit: None,
            order: None,
            status: None,
            task: None,
        }
    }
}

/// Operations on background tasks.
pub struct BackgroundTask<'a> {
    cfg: &'a Configuration,
}

impl<'a> BackgroundTask<'a> {
    pub(crate) fn new(cfg: &'a Configuration) -> (r: Self)
        ensures
            r.config() == *cfg,
    {
        Self { cfg }
    }

    /// The configuration that the requests of this sub-client carry.
    pub closed spec fn config(&self) -> Configuration {
        *self.cfg
    }

    /// The wire parameters of [`BackgroundTask::list`].
    pub open spec fn list_call(options: Option<BackgroundTaskListOptions>) -> Call {
        match options {
            Some(o) => Call::BackgroundTaskList {
                iterator: o.iterator,
                limit: o.limit,
                order: o.order,
                status: o.status,
                task: o.task,
            },
            None => Call::BackgroundTaskList {
                iterator: None,
                limit: None,
                order: None,
                status: None,
                task: None,
            },
        }
    }

    pub fn list(&self, options: Option<BackgroundTaskListOptions>) -> (r: Request<'a>)
        ensures
            *r.cfg == self.config(),
            r.call == Self::list_call(options),
    {
        let o = match options {
            Some(o) => o,
            None => BackgroundTaskListOptions::default(),
        };
        let call = Call::BackgroundTaskList {
            iterator: o.iterator,
            limit: o.limit,
            order: o.order,
            status: o.status,
            task: o.task,
        };
        Request { cfg: self.cfg, call }
    }

    /// The wire parameters of [`BackgroundTask::get`].
    pub open spec fn get_call(task_id: String) -> Call {
        Call::BackgroundTaskGet { task_id }
    }

    pub fn get(&self, task_id: String) -> (r: Request<'a>)
        ensures
            *r.cfg == self.config(),
            r.call == Self::get_call(task_id),
    {
        let call = Call::BackgroundTaskGet { task_id };
        Request { cfg: self.cfg, call }
    }
}

} // verus!
