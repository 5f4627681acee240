//! The phases of a server run: accepting until the shutdown signal, then
//! draining live connections for a bounded time.

use vstd::prelude::*;
use crate::live::{LiveCount, register_step};

verus! {

/// Milliseconds a server waits, by default, for live connections to finish
/// after the shutdown signal.
pub const DEFAULT_SHUTDOWN_TIMEOUT_MS: u64 = 1000;

/// Connections the kernel queues on a listener before they are accepted.
pub const LISTEN_BACKLOG: i32 = 1024;

/// Where a server run stands.
#[derive(Clone, Copy, Debug, PartialEq, Eq, Structural)]
pub enum RunPhase {
    /// The listener is open and connections are accepted.
    Accepting,
    /// The listener is closed; live connections are given time to finish.
    Draining,
    /// The run has returned.
    Done,
}

/// Which side of the race of the accepting phase finished first.
#[derive(Clone, Copy, Debug, PartialEq, Eq, Structural)]
pub enum AcceptEnd {
    /// The shutdown signal resolved, with success or failure alike.
    Signal,
    /// The accept stream failed: an accept error or a factory error.
    Failed,
}

/// A `ServerRun` as plain values.
pub struct RunView {
    pub phase: RunPhase,
    pub listening: bool,
    pub failed: bool,
}

/// The end of the accepting phase: the listener is closed; the run drains
/// after the shutdown signal and is done, failed, after a failure.
pub open spec fn end_step(v: RunView, end: AcceptEnd) -> (RunView, bool) {
    match end {
        AcceptEnd::Signal => (RunView { phase: RunPhase::Draining, listening: false, ..v }, true),
        AcceptEnd::Failed => (RunView { phase: RunPhase::Done, listening: false, failed: true }, false),
    }
}

/// One poll of the drain: it ends when no connection is live or the
/// shutdown timeout has elapsed.
pub open spec fn drain_step(v: RunView, active: nat, timeout_elapsed: bool) -> (RunView, bool) {
    if active == 0 || timeout_elapsed {
        (RunView { phase: RunPhase::Done, ..v }, true)
    } else {
        (v, false)
    }
}

/// The state of one server run.
#[derive(Debug)]
pub struct ServerRun {
    phase: RunPhase,
    listening: bool,
    failed: bool,
}

impl View for ServerRun {
    type V = RunView;

    closed spec fn view(&self) -> RunView {
        RunView { phase: self.phase, listening: self.listening, failed: self.failed }
    }
}

impl ServerRun {
    /// The listener is open exactly while accepting, and only a run that
    /// ended its accepting phase on a failure has failed.
    pub open spec fn wf(&self) -> bool {
        &&& self@.listening == (self@.phase == RunPhase::Accepting)
        &&& self@.failed ==> self@.phase == RunPhase::Done
    }

    /// A run that is accepting.
    pub fn new() -> (r: ServerRun)
        ensures
            r.wf(),
            r@ == (RunView { phase: RunPhase::Accepting, listening: true, failed: false }),
    {
        ServerRun { phase: RunPhase::Accepting, listening: true, failed: false }
    }

    /// Where the run stands.
    pub fn phase(&self) -> (r: RunPhase)
        ensures
            r == self@.phase,
    {
        self.phase
    }

    /// Ends the accepting phase. The listener is dropped either way; the run
    /// drains after the shutdown signal and returns the error after a
    /// failure. Returns whether to drain.
    pub fn end_accepting(&mut self, end: AcceptEnd) -> (drain: bool)
        requires
            old(self).wf(),
            old(self)@.phase == RunPhase::Accepting,
        ensures
            final(self).wf(),
            (final(self)@, drain) == end_step(old(self)@, end),
    {
        self.listening = false;
        match end {
            AcceptEnd::Signal => {
                self.phase = RunPhase::Draining;
                true
            },
            AcceptEnd::Failed => {
                self.phase = RunPhase::Done;
                self.failed = true;
                false
            },
        }
    }

    /// Polls the drain: it ends as soon as no connection is live or the
    /// shutdown timeout has elapsed, whichever comes first. Returns whether
    /// the run is done.
    pub fn poll_drain(&mut self, active: usize, timeout_elapsed: bool) -> (done: bool)
        requires
            old(self).wf(),
            old(self)@.phase == RunPhase::Draining,
        ensures
            final(self).wf(),
            (final(self)@, done) == drain_step(old(self)@, active as nat, timeout_elapsed),
    {
        if active == 0 || timeout_elapsed {
            self.phase = RunPhase::Done;
            true
        } else {
            false
        }
    }
}

/// The run after the drain polls `polls`, each the number of live
/// connections and whether the timeout has elapsed; polling stops once done.
pub open spec fn drain_replay(v: RunView, polls: Seq<(nat, bool)>) -> RunView
    decreases polls.len(),
{
    if polls.len() == 0 {
        v
    } else {
        let w = drain_replay(v, polls.drop_last());
        if w.phase == RunPhase::Draining {
            drain_step(w, polls.last().0, polls.last().1).0
        } else {
            w
        }
    }
}

/// Whether some poll found no live connection or the timeout elapsed.
pub open spec fn drain_due(polls: Seq<(nat, bool)>) -> bool {
    exists|i: int| 0 <= i < polls.len() && (#[trigger] polls[i].0 == 0 || polls[i].1)
}

/// After the shutdown signal the listener is closed before the drain
/// begins, and the run returns at the first poll that finds every
/// connection finished or the shutdown timeout elapsed, and not before.
pub proof fn lemma_shutdown_drain(polls: Seq<(nat, bool)>)
    ensures
        ({
            let start = RunView { phase: RunPhase::Accepting, listening: true, failed: false };
            let draining = end_step(start, AcceptEnd::Signal).0;
            &&& draining.phase == RunPhase::Draining
            &&& !drain_replay(draining, polls).listening
            &&& !drain_replay(draining, polls).failed
            &&& (drain_replay(draining, polls).phase == RunPhase::Done) == drain_due(polls)
            &&& drain_replay(draining, polls).phase != RunPhase::Accepting
        }),
    decreases polls.len(),
{
    if polls.len() > 0 {
        let pre = polls.drop_last();
        lemma_shutdown_drain(pre);
        if drain_due(pre) {
            let i = choose|i: int| 0 <= i < pre.len() && (#[trigger] pre[i].0 == 0 || pre[i].1);
            assert(polls[i] == pre[i]);
        } else {
            assert forall|i: int| 0 <= i < polls.len() - 1 implies !(#[trigger] polls[i].0 == 0
                || polls[i].1) by {
                assert(polls[i] == pre[i]);
            }
            if polls.last().0 == 0 || polls.last().1 {
                assert(polls[polls.len() - 1].0 == 0 || polls[polls.len() - 1].1);
            }
        }
    }
}

/// Takes what the service factory made for a newly accepted connection. A
/// service is counted as live; a factory error ends the accepting phase and
/// counts nothing.
pub fn admit_connection<S, E, W>(live: &mut LiveCount<W>, made: Result<S, E>) -> (r: Result<S, E>)
    requires
        old(live)@.active < usize::MAX,
    ensures
        r == made,
        final(live)@ == (if made is Ok { register_step(old(live)@) } else { old(live)@ }),
{
    match made {
        Ok(service) => {
            live.register();
            Ok(service)
        },
        Err(e) => Err(e),
    }
}

/// The indices of the worker threads that a run on `threads` threads spawns
/// besides the current one, which is worker zero.
pub fn worker_ids(threads: usize) -> (r: Vec<usize>)
    requires
        threads > 0,
    ensures
        r@ == Seq::new((threads - 1) as nat, |i: int| (i + 1) as usize),
{
    let mut r: Vec<usize> = Vec::new();
    let mut i: usize = 1;
    while i < threads
        invariant
            1 <= i <= threads,
            r@ == Seq::new((i - 1) as nat, |k: int| (k + 1) as usize),
        decreases threads - i,
    {
        r.push(i);
        i = i + 1;
        assert(r@ =~= Seq::new((i - 1) as nat, |k: int| (k + 1) as usize));
    }
    r
}

} // verus!
