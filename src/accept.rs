//! The accept loop's policy: which accept errors are retried at once, which
//! pause the loop, and which are passed up to the server.
//!
//! The loop itself (the listener, the timer) is driven by the caller, which
//! reports each accept attempt to an `AcceptLoop` and performs the action
//! that comes back.

use vstd::prelude::*;

verus! {

/// Milliseconds the loop pauses after an accept error that is not tied to a
/// single pending connection (such as running out of file descriptors).
pub const ACCEPT_ERROR_SLEEP_MS: u64 = 10;

/// The kinds of accept error that the loop tells apart.
#[derive(Clone, Copy, Debug, PartialEq, Eq, Structural)]
pub enum AcceptErrorKind {
    /// No connection is pending.
    WouldBlock,
    ConnectionRefused,
    ConnectionAborted,
    ConnectionReset,
    /// Any other error, such as file-descriptor exhaustion.
    Other,
}

/// What one accept attempt gave.
#[derive(Clone, Copy, Debug, PartialEq, Eq, Structural)]
pub enum AcceptOutcome {
    Accepted,
    Failed(AcceptErrorKind),
}

/// What the caller does next.
#[derive(Clone, Copy, Debug, PartialEq, Eq, Structural)]
pub enum AcceptAction {
    /// Hand the accepted connection out.
    Yield,
    /// Report "not ready" and wait for the listener.
    Pending,
    /// Pass the error up to the caller of the stream.
    Surface,
    /// Accept again at once.
    Retry,
    /// Start a timer of `ACCEPT_ERROR_SLEEP_MS`, then poll again.
    Backoff,
}

/// True of the errors that concern only the one pending connection that
/// failed: the next one may be ready to be accepted.
pub open spec fn is_per_connection(kind: AcceptErrorKind) -> bool {
    kind is ConnectionRefused || kind is ConnectionAborted || kind is ConnectionReset
}

/// Whether an accept error concerns only one pending connection, so that the
/// loop can accept again without pausing.
pub fn connection_error(kind: AcceptErrorKind) -> (r: bool)
    ensures
        r == is_per_connection(kind),
{
    match kind {
        AcceptErrorKind::ConnectionRefused => true,
        AcceptErrorKind::ConnectionAborted => true,
        AcceptErrorKind::ConnectionReset => true,
        _ => false,
    }
}

/// The state of an accept loop, as plain values.
pub struct AcceptState {
    pub sleep_on_errors: bool,
    pub keepalive_secs: Option<u64>,
    /// A backoff timer is armed and the loop waits for it.
    pub backoff_pending: bool,
}

/// The start of a poll: while an armed timer has not fired the loop stays
/// paused; otherwise the timer is cleared and accepting begins.
pub open spec fn poll_start(s: AcceptState, backoff_fired: bool) -> (AcceptState, bool) {
    if s.backoff_pending && !backoff_fired {
        (s, false)
    } else {
        (AcceptState { backoff_pending: false, ..s }, true)
    }
}

/// One accept attempt: the next state and the action to perform.
pub open spec fn accept_step(s: AcceptState, o: AcceptOutcome) -> (AcceptState, AcceptAction) {
    match o {
        AcceptOutcome::Accepted => (s, AcceptAction::Yield),
        AcceptOutcome::Failed(kind) => {
            if kind is WouldBlock {
                (s, AcceptAction::Pending)
            } else if !s.sleep_on_errors {
                (s, AcceptAction::Surface)
            } else if is_per_connection(kind) {
                (s, AcceptAction::Retry)
            } else {
                (AcceptState { backoff_pending: true, ..s }, AcceptAction::Backoff)
            }
        },
    }
}

/// The accept loop of a listener: its error policy, the keep-alive to set on
/// accepted sockets, and whether a backoff timer is pending.
#[derive(Debug)]
pub struct AcceptLoop {
    sleep_on_errors: bool,
    keepalive_secs: Option<u64>,
    backoff_pending: bool,
}

impl View for AcceptLoop {
    type V = AcceptState;

    closed spec fn view(&self) -> AcceptState {
        AcceptState {
            sleep_on_errors: self.sleep_on_errors,
            keepalive_secs: self.keepalive_secs,
            backoff_pending: self.backoff_pending,
        }
    }
}

impl AcceptLoop {
    /// A loop with no keep-alive and no pending timer.
    pub fn new(sleep_on_errors: bool) -> (r: AcceptLoop)
        ensures
            r@ == (AcceptState { sleep_on_errors, keepalive_secs: None, backoff_pending: false }),
    {
        AcceptLoop { sleep_on_errors, keepalive_secs: None, backoff_pending: false }
    }

    /// Sets the TCP keep-alive, in seconds, for sockets accepted from now on.
    pub fn set_keepalive(&mut self, secs: Option<u64>)
        ensures
            final(self)@ == (AcceptState { keepalive_secs: secs, ..old(self)@ }),
    {
        self.keepalive_secs = secs;
    }

    /// The TCP keep-alive, in seconds, to set on each accepted socket.
    pub fn keepalive_secs(&self) -> (r: Option<u64>)
        ensures
            r == self@.keepalive_secs,
    {
        self.keepalive_secs
    }

    /// Whether the loop waits for a backoff timer.
    pub fn backoff_pending(&self) -> (r: bool)
        ensures
            r == self@.backoff_pending,
    {
        self.backoff_pending
    }

    /// Starts a poll. `backoff_fired` tells whether the pending timer, if
    /// any, has fired. Returns whether to go on and accept; when it is false
    /// the poll reports "not ready" and keeps the timer.
    pub fn begin_poll(&mut self, backoff_fired: bool) -> (r: bool)
        ensures
            (final(self)@, r) == poll_start(old(self)@, backoff_fired),
    {
        if self.backoff_pending && !backoff_fired {
            false
        } else {
            self.backoff_pending = false;
            true
        }
    }

    /// Takes the outcome of one accept attempt and says what to do next.
    /// After `Backoff` the caller starts the timer and polls again through
    /// `begin_poll`, which goes on at once if the timer has already fired.
    pub fn on_accept(&mut self, outcome: AcceptOutcome) -> (r: AcceptAction)
        ensures
            (final(self)@, r) == accept_step(old(self)@, outcome),
    {
        match outcome {
            AcceptOutcome::Accepted => AcceptAction::Yield,
            AcceptOutcome::Failed(kind) => {
                if let AcceptErrorKind::WouldBlock = kind {
                    AcceptAction::Pending
                } else if !self.sleep_on_errors {
                    AcceptAction::Surface
                } else if connection_error(kind) {
                    AcceptAction::Retry
                } else {
                    self.backoff_pending = true;
                    AcceptAction::Backoff
                }
            },
        }
    }
}

/// The state in which the loop makes its next accept attempt after `a`:
/// after `Backoff` that is once the timer has fired.
pub open spec fn resume(s: AcceptState, a: AcceptAction) -> AcceptState {
    if a is Backoff {
        poll_start(s, true).0
    } else {
        s
    }
}

/// The actions of a loop that meets the accept outcomes `outs` in turn,
/// each timer it arms firing before the next attempt.
pub open spec fn drive(s: AcceptState, outs: Seq<AcceptOutcome>) -> Seq<AcceptAction>
    decreases outs.len(),
{
    if outs.len() == 0 {
        Seq::empty()
    } else {
        let (t, a) = accept_step(s, outs[0]);
        seq![a] + drive(resume(t, a), outs.subrange(1, outs.len() as int))
    }
}

/// The number of times `a` occurs in `acts`.
pub open spec fn count_action(acts: Seq<AcceptAction>, a: AcceptAction) -> nat
    decreases acts.len(),
{
    if acts.len() == 0 {
        0
    } else {
        count_action(acts.drop_last(), a) + (if acts.last() == a { 1nat } else { 0nat })
    }
}

proof fn lemma_count_repeat(n: nat, a: AcceptAction, b: AcceptAction)
    ensures
        count_action(Seq::new(n, |i: int| a) + seq![AcceptAction::Yield], b) == (if a == b {
            n
        } else {
            0nat
        }) + (if b == AcceptAction::Yield { 1nat } else { 0nat }),
    decreases n,
{
    let acts = Seq::new(n, |i: int| a) + seq![AcceptAction::Yield];
    assert(acts.drop_last() =~= Seq::new(n, |i: int| a));
    lemma_count_new(n, a, b);
}

proof fn lemma_count_new(n: nat, a: AcceptAction, b: AcceptAction)
    ensures
        count_action(Seq::new(n, |i: int| a), b) == (if a == b { n } else { 0nat }),
    decreases n,
{
    if n > 0 {
        assert(Seq::new(n, |i: int| a).drop_last() =~= Seq::new((n - 1) as nat, |i: int| a));
        lemma_count_new((n - 1) as nat, a, b);
    }
}

/// `n` failed attempts of the same kind, then a successful one.
pub open spec fn failures_then_accept(kind: AcceptErrorKind, n: nat) -> Seq<AcceptOutcome> {
    Seq::new(n, |i: int| AcceptOutcome::Failed(kind)) + seq![AcceptOutcome::Accepted]
}

proof fn lemma_repeat(s: AcceptState, kind: AcceptErrorKind, n: nat, a: AcceptAction)
    requires
        accept_step(s, AcceptOutcome::Failed(kind)).1 == a,
        resume(accept_step(s, AcceptOutcome::Failed(kind)).0, a) == s,
    ensures
        drive(s, failures_then_accept(kind, n)) == Seq::new(n, |i: int| a) + seq![AcceptAction::Yield],
    decreases n,
{
    let outs = failures_then_accept(kind, n);
    if n == 0 {
        assert(outs[0] == AcceptOutcome::Accepted);
        assert(outs.subrange(1, outs.len() as int) =~= Seq::<AcceptOutcome>::empty());
        assert(drive(s, Seq::<AcceptOutcome>::empty()) == Seq::<AcceptAction>::empty());
        assert(drive(s, outs) =~= seq![AcceptAction::Yield]);
        assert(Seq::new(0, |i: int| a) + seq![AcceptAction::Yield] =~= seq![AcceptAction::Yield]);
    } else {
        lemma_repeat(s, kind, (n - 1) as nat, a);
        assert(outs[0] == AcceptOutcome::Failed(kind));
        assert(outs.subrange(1, outs.len() as int) =~= failures_then_accept(kind, (n - 1) as nat));
        assert(Seq::new(n, |i: int| a) + seq![AcceptAction::Yield] =~= seq![a] + (Seq::new(
            (n - 1) as nat,
            |i: int| a,
        ) + seq![AcceptAction::Yield]));
    }
}

/// With errors slept on, `k` resource errors followed by a success make the
/// loop pause `k` times, `ACCEPT_ERROR_SLEEP_MS` each, and then yield exactly
/// one connection.
pub proof fn lemma_backoff(s: AcceptState, kind: AcceptErrorKind, k: nat)
    requires
        s.sleep_on_errors,
        !s.backoff_pending,
        !(kind is WouldBlock),
        !is_per_connection(kind),
    ensures
        drive(s, failures_then_accept(kind, k)) == Seq::new(k, |i: int| AcceptAction::Backoff)
            + seq![AcceptAction::Yield],
        count_action(drive(s, failures_then_accept(kind, k)), AcceptAction::Yield) == 1,
        count_action(drive(s, failures_then_accept(kind, k)), AcceptAction::Backoff) == k,
        count_action(drive(s, failures_then_accept(kind, k)), AcceptAction::Backoff)
            * ACCEPT_ERROR_SLEEP_MS >= (k - 1) * ACCEPT_ERROR_SLEEP_MS,
{
    assert(resume(accept_step(s, AcceptOutcome::Failed(kind)).0, AcceptAction::Backoff) =~= s);
    lemma_repeat(s, kind, k, AcceptAction::Backoff);
    lemma_count_repeat(k, AcceptAction::Backoff, AcceptAction::Yield);
    lemma_count_repeat(k, AcceptAction::Backoff, AcceptAction::Backoff);
    assert(k * ACCEPT_ERROR_SLEEP_MS >= (k - 1) * ACCEPT_ERROR_SLEEP_MS) by (nonlinear_arith);
}

/// With errors slept on, any number of per-connection errors followed by a
/// success yield exactly one connection with no pause: no timer is armed.
pub proof fn lemma_per_connection_retry(s: AcceptState, kind: AcceptErrorKind, n: nat)
    requires
        s.sleep_on_errors,
        is_per_connection(kind),
    ensures
        drive(s, failures_then_accept(kind, n)) == Seq::new(n, |i: int| AcceptAction::Retry)
            + seq![AcceptAction::Yield],
        count_action(drive(s, failures_then_accept(kind, n)), AcceptAction::Yield) == 1,
        count_action(drive(s, failures_then_accept(kind, n)), AcceptAction::Backoff) == 0,
        accept_step(s, AcceptOutcome::Failed(kind)).0 == s,
{
    lemma_repeat(s, kind, n, AcceptAction::Retry);
    lemma_count_repeat(n, AcceptAction::Retry, AcceptAction::Yield);
    lemma_count_repeat(n, AcceptAction::Retry, AcceptAction::Backoff);
}

/// With errors not slept on, every accept error but "would block" is passed
/// up, whatever the state of the loop.
pub proof fn lemma_fatal_error(s: AcceptState, kind: AcceptErrorKind)
    requires
        !s.sleep_on_errors,
        !(kind is WouldBlock),
    ensures
        accept_step(s, AcceptOutcome::Failed(kind)) == (s, AcceptAction::Surface),
{
}

} // verus!
