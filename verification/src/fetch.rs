//! The fetch worker: one cycle of "fetch, publish, notify, sleep", without the
//! fetch and without the sleep.
//!
//! The caller performs the network request and hands the result to
//! `complete_cycle` together with the store. The worker publishes and says
//! what to do next.

use vstd::prelude::*;
use crate::event::AppEvent;
use crate::event::Fatal;
use crate::store::SnapshotStore;

verus! {

/// The pause between two fetch cycles, in seconds. There is no jitter and no
/// backoff.
pub const REFRESH_INTERVAL_SECS: u64 = 10;

/// What a worker does when a fetch fails. A worker is given its policy when
/// it is made and applies it to every cycle.
#[derive(Clone, Copy, Debug, PartialEq, Eq, Structural)]
pub enum FetchPolicy {
    /// Give up: the failure is fatal to the dashboard.
    FailFast,
    /// Publish a placeholder snapshot in place of the missing data and carry
    /// on, so that the user sees a dashboard with placeholder values.
    SubstituteDefault,
}

/// What the worker's thread does after a cycle.
#[derive(Clone, Copy, Debug, PartialEq, Eq, Structural)]
pub enum AfterFetch {
    /// A snapshot was published: send `event` to the render loop, sleep for
    /// `sleep_secs` seconds, then fetch again.
    Notify { event: AppEvent, sleep_secs: u64 },
    /// Nothing was published: stop with this condition.
    Abort(Fatal),
}

/// The background worker that keeps the store up to date.
pub struct FetchWorker {
    policy: FetchPolicy,
}

impl FetchWorker {
    /// The policy that this worker applies to every failed fetch.
    pub closed spec fn spec_policy(&self) -> FetchPolicy {
        self.policy
    }

    /// What a cycle publishes: the fetched snapshot; on failure the
    /// placeholder under `SubstituteDefault`, and nothing under `FailFast`.
    pub open spec fn published<T, E>(
        policy: FetchPolicy,
        fetched: Result<T, E>,
        placeholder: T,
    ) -> Option<T> {
        match fetched {
            Ok(snapshot) => Some(snapshot),
            Err(_) => match policy {
                FetchPolicy::SubstituteDefault => Some(placeholder),
                FetchPolicy::FailFast => None,
            },
        }
    }

    /// What follows a cycle that published, or did not.
    pub open spec fn after<T>(published: Option<T>) -> AfterFetch {
        if published is Some {
            AfterFetch::Notify { event: AppEvent::Redraw, sleep_secs: REFRESH_INTERVAL_SECS }
        } else {
            AfterFetch::Abort(Fatal::FetchFailed)
        }
    }

    /// A worker with the given failure policy.
    pub fn new(policy: FetchPolicy) -> (worker: Self)
        ensures
            worker.spec_policy() == policy,
    {
        FetchWorker { policy }
    }

    /// The policy that this worker applies to every failed fetch.
    pub fn policy(&self) -> (policy: FetchPolicy)
        ensures
            policy == self.spec_policy(),
    {
        self.policy
    }

    /// Completes one cycle with the result of the fetch.
    ///
    /// A fetched snapshot replaces the content of the store. A failure is
    /// handled by the worker's policy: the placeholder is published instead,
    /// or the store is left alone and the cycle ends in `Abort`. Whenever
    /// something was published the render loop is to be told with a `Redraw`,
    /// so no failure passes without either a visible change or an abort.
    pub fn complete_cycle<T, E>(
        &self,
        fetched: Result<T, E>,
        placeholder: T,
        store: &mut SnapshotStore<T>,
    ) -> (next: AfterFetch)
        ensures
            next == Self::after(Self::published(self.spec_policy(), fetched, placeholder)),
            match Self::published(self.spec_policy(), fetched, placeholder) {
                Some(snapshot) => {
                    &&& final(store)@ == Some(snapshot)
                    &&& final(store).history() == old(store).history().push(snapshot)
                },
                None => {
                    &&& final(store)@ == old(store)@
                    &&& final(store).history() == old(store).history()
                },
            },
    {
        match fetched {
            Ok(snapshot) => {
                store.write(snapshot);
                AfterFetch::Notify { event: AppEvent::Redraw, sleep_secs: REFRESH_INTERVAL_SECS }
            },
            Err(_) => match self.policy {
                FetchPolicy::SubstituteDefault => {
                    store.write(placeholder);
                    AfterFetch::Notify {
                        event: AppEvent::Redraw,
                        sleep_secs: REFRESH_INTERVAL_SECS,
                    }
                },
                FetchPolicy::FailFast => AfterFetch::Abort(Fatal::FetchFailed),
            },
        }
    }
}

/// No failed fetch is swallowed: under either policy a failure ends in a
/// published placeholder together with a redraw request, or in an abort, and
/// which of the two is decided by the policy alone. A successful fetch is
/// always published as it is.
pub proof fn lemma_no_failure_is_swallowed<T, E>(
    policy: FetchPolicy,
    fetched: Result<T, E>,
    placeholder: T,
)
    ensures
        fetched is Ok ==> FetchWorker::published(policy, fetched, placeholder) == Some(
            fetched->Ok_0,
        ),
        fetched is Err && policy == FetchPolicy::SubstituteDefault ==> {
            &&& FetchWorker::published(policy, fetched, placeholder) == Some(placeholder)
            &&& FetchWorker::after(FetchWorker::published(policy, fetched, placeholder))
                == (AfterFetch::Notify {
                event: AppEvent::Redraw,
                sleep_secs: REFRESH_INTERVAL_SECS,
            })
        },
        fetched is Err && policy == FetchPolicy::FailFast ==> {
            &&& FetchWorker::published(policy, fetched, placeholder) is None
            &&& FetchWorker::after(FetchWorker::published(policy, fetched, placeholder))
                == AfterFetch::Abort(Fatal::FetchFailed)
        },
{
}

} // verus!
