//! The external future adapter.
//!
//! The reactor that embeds the bridge produces opaque asynchronous handles
//! (for example, a timer that completes after some interval).  The guest
//! engine has its own poll-based continuation model.  This module presents
//! one external handle as a value that can be polled inside the guest
//! engine's model: on each poll the adapter forwards the handle's own
//! non-blocking completion query and reports one of three outcomes, and once
//! it has reported completion or failure it is spent and must not be polled
//! again.

use std::sync::atomic::AtomicU64;
use std::sync::atomic::AtomicU8;
use std::sync::atomic::Ordering;
use std::sync::Arc;
use vstd::prelude::*;

verus! {

/// What the external asynchronous handle reports when queried: the
/// operation has not completed, completed successfully, or failed with a
/// diagnostic.
#[derive(Debug, Clone, PartialEq, Eq)]
pub enum ExternalPoll {
    Pending,
    Ready,
    Failed(String),
}

/// What one poll of the adapter reports into the guest engine's model:
/// try again later, finished successfully, or finished with a failure.
#[derive(Debug, Clone, PartialEq, Eq)]
pub enum AdapterPoll {
    NotReady,
    Done,
    Error(String),
}

/// The outcome the adapter reports for a given report of the external
/// handle: a pending handle is forwarded as "not ready", completion as
/// "done", and a failure as an error carrying the handle's diagnostic.
pub open spec fn adapter_outcome(report: ExternalPoll) -> AdapterPoll {
    match report {
        ExternalPoll::Pending => AdapterPoll::NotReady,
        ExternalPoll::Ready => AdapterPoll::Done,
        ExternalPoll::Failed(m) => AdapterPoll::Error(m),
    }
}

/// The adapter never reports completion while the external handle is still
/// pending, and it reports success exactly for a handle that reported
/// completion.
pub proof fn lemma_adapter_completion_needs_ready(report: ExternalPoll)
    ensures
        adapter_outcome(report) is Done <==> report is Ready,
        adapter_outcome(report) is NotReady <==> report is Pending,
{
}

/// One external handle presented as a pollable continuation.  The adapter
/// is usable by exactly one poller: after it has reported completion or
/// failure it is spent, and polling it again is ruled out by contract.
pub struct FutureAdapter {
    spent: bool,
}

impl FutureAdapter {
    /// Whether the adapter has already reported completion or failure.
    pub closed spec fn spent(&self) -> bool {
        self.spent
    }

    /// A fresh adapter that has not yet reported completion or failure.
    pub fn new() -> (r: FutureAdapter)
        ensures
            !r.spent(),
    {
        FutureAdapter { spent: false }
    }

    /// Whether the adapter has already reported completion or failure.
    pub fn is_spent(&self) -> (r: bool)
        ensures
            r == self.spent(),
    {
        self.spent
    }

    /// Forward one non-blocking query of the external handle.  A pending
    /// handle leaves the adapter unspent and reports "not ready"; a handle
    /// that completed or failed spends the adapter and reports the outcome
    /// exactly once.
    pub fn step(&mut self, report: ExternalPoll) -> (r: AdapterPoll)
        requires
            !old(self).spent(),
        ensures
            r == adapter_outcome(report),
            final(self).spent() == !(r is NotReady),
    {
        match report {
            ExternalPoll::Pending => AdapterPoll::NotReady,
            ExternalPoll::Ready => {
                self.spent = true;
                AdapterPoll::Done
            }
            ExternalPoll::Failed(m) => {
                self.spent = true;
                AdapterPoll::Error(m)
            }
        }
    }

    /// [`FutureAdapter::step`] for pollers whose discipline the verifier
    /// cannot see: polling a spent adapter is a logic error of the poller,
    /// guarded here by reporting "not ready" and changing nothing.
    pub fn step_guarded(&mut self, report: ExternalPoll) -> (r: AdapterPoll)
        ensures
            old(self).spent() ==> r is NotReady && final(self).spent(),
            !old(self).spent() ==> r == adapter_outcome(report) && final(self).spent() == !(
            r is NotReady),
    {
        if self.is_spent() {
            AdapterPoll::NotReady
        } else {
            self.step(report)
        }
    }
}

/// A handle to the embedding reactor's timer subsystem for one session.
///
/// The reactor's scheduler and timers are outside the bridge; this handle is
/// the bridge's view of them.  Each asynchronous host operation takes a
/// fresh ticket with [`TimerHandle::take_ticket`], which stands for one
/// newly created, independent timer operation.  The driver that stands in
/// for the reactor completes one pending operation per [`TimerHandle::fire`]
/// (tickets complete in the order they were taken) and fails every
/// still-pending operation with [`TimerHandle::fail`];
/// [`TimerHandle::poll_ticket`] is the non-blocking completion query that
/// the adapter forwards.  All handles obtained through
/// [`TimerHandle::share`] observe the same source.
#[verifier::external_body]
pub struct TimerHandle {
    issued: Arc<AtomicU64>,
    completed: Arc<AtomicU64>,
    poisoned: Arc<AtomicU8>,
}

/// What a ticket's operation reports: failed once the source is poisoned,
/// completed once as many firings have happened as there were tickets up to
/// and including this one, and pending otherwise.
pub fn ticket_report(ticket: u64, completed: u64, poisoned: bool) -> (r: ExternalPoll)
    ensures
        poisoned ==> r is Failed,
        !poisoned && ticket < completed ==> r is Ready,
        !poisoned && ticket >= completed ==> r is Pending,
{
    if poisoned {
        ExternalPoll::Failed(String::from_str("the external timer reported failure"))
    } else if ticket < completed {
        ExternalPoll::Ready
    } else {
        ExternalPoll::Pending
    }
}

impl TimerHandle {
    /// A fresh timer source with no operation taken or completed.
    /// Relies on `std::sync::Arc::new`, `AtomicU64::new` and `AtomicU8::new`.
    #[verifier::external_body]
    pub fn new() -> TimerHandle {
        TimerHandle {
            issued: Arc::new(AtomicU64::new(0)),
            completed: Arc::new(AtomicU64::new(0)),
            poisoned: Arc::new(AtomicU8::new(0)),
        }
    }

    /// Another handle observing the same timer source.
    /// Relies on `std::sync::Arc::clone`: both handles refer to one source.
    #[verifier::external_body]
    pub fn share(&self) -> TimerHandle {
        TimerHandle {
            issued: Arc::clone(&self.issued),
            completed: Arc::clone(&self.completed),
            poisoned: Arc::clone(&self.poisoned),
        }
    }

    /// Begin one fresh, independent timer operation and return its ticket.
    /// Relies on `AtomicU64::fetch_add`.
    #[verifier::external_body]
    pub fn take_ticket(&self) -> u64 {
        self.issued.fetch_add(1, Ordering::Relaxed)
    }

    /// Mark the oldest still-pending operation completed.
    /// Relies on `AtomicU64::fetch_add`.
    #[verifier::external_body]
    pub fn fire(&self) {
        self.completed.fetch_add(1, Ordering::Relaxed);
    }

    /// Poison the source: every poll of any ticket afterwards reports
    /// failure, whether or not its operation had already completed
    /// unobserved.
    /// Relies on `AtomicU8::store`.
    #[verifier::external_body]
    pub fn fail(&self) {
        self.poisoned.store(1, Ordering::Relaxed);
    }

    /// The non-blocking query behind each ticket's poll: how many
    /// operations have completed, and whether the source is poisoned.  The
    /// result depends on the reactor's state, so nothing relates one call
    /// to the next; callers settle it with the verified [`ticket_report`].
    /// Relies on `AtomicU64::load` and `AtomicU8::load`.
    #[verifier::external_body]
    pub fn poll_status(&self) -> (u64, bool) {
        (self.completed.load(Ordering::Relaxed), self.poisoned.load(Ordering::Relaxed) != 0)
    }
}

} // verus!
