//! Accounting of live connections for graceful shutdown.
//!
//! Every accepted connection registers once and releases once. A task that
//! waits for the count to reach zero parks a waiter, which the release that
//! brings the count to zero hands back to be woken.

use vstd::prelude::*;

verus! {

/// A `LiveCount` as plain values.
pub struct LiveState<W> {
    pub active: nat,
    pub blocker: Option<W>,
}

/// One more live connection.
pub open spec fn register_step<W>(s: LiveState<W>) -> LiveState<W> {
    LiveState { active: s.active + 1, ..s }
}

/// One connection fewer; at zero the parked waiter, if any, is taken out to
/// be woken. The second component is the waiter to wake.
pub open spec fn release_step<W>(s: LiveState<W>) -> (LiveState<W>, Option<W>)
    recommends
        s.active > 0,
{
    let active = (s.active - 1) as nat;
    if active == 0 {
        (LiveState { active, blocker: None }, s.blocker)
    } else {
        (LiveState { active, ..s }, None)
    }
}

/// The number of live connections and the waiter parked until it is zero.
#[derive(Debug)]
pub struct LiveCount<W> {
    active: usize,
    blocker: Option<W>,
}

impl<W> View for LiveCount<W> {
    type V = LiveState<W>;

    closed spec fn view(&self) -> LiveState<W> {
        LiveState { active: self.active as nat, blocker: self.blocker }
    }
}

impl<W> LiveCount<W> {
    /// No live connection, no waiter.
    pub fn new() -> (r: LiveCount<W>)
        ensures
            r@ == (LiveState::<W> { active: 0, blocker: None }),
    {
        LiveCount { active: 0, blocker: None }
    }

    /// The number of live connections.
    pub fn active(&self) -> (r: usize)
        ensures
            r as nat == self@.active,
    {
        self.active
    }

    /// Whether a waiter is parked.
    pub fn has_waiter(&self) -> (r: bool)
        ensures
            r == self@.blocker is Some,
    {
        self.blocker.is_some()
    }

    /// Counts a newly accepted connection.
    pub fn register(&mut self)
        requires
            old(self)@.active < usize::MAX,
        ensures
            final(self)@ == register_step(old(self)@),
    {
        self.active = self.active + 1;
    }

    /// Counts a connection that has finished. When this brings the count to
    /// zero, the parked waiter is returned, to be woken by the caller.
    pub fn release(&mut self) -> (r: Option<W>)
        requires
            old(self)@.active > 0,
        ensures
            (final(self)@, r) == release_step(old(self)@),
    {
        self.active = self.active - 1;
        if self.active == 0 {
            self.blocker.take()
        } else {
            None
        }
    }

    /// Polls for the count to be zero. When it is not, `waiter` is parked in
    /// place of any earlier one and the result is false.
    pub fn poll_drained(&mut self, waiter: W) -> (r: bool)
        ensures
            r == (old(self)@.active == 0),
            final(self)@ == (if r { old(self)@ } else {
                LiveState { blocker: Some(waiter), ..old(self)@ }
            }),
    {
        if self.active == 0 {
            true
        } else {
            self.blocker = Some(waiter);
            false
        }
    }
}

/// An event of the accounting: a connection accepted or finished.
#[derive(Clone, Copy, Debug, PartialEq, Eq, Structural)]
pub enum CountEvent {
    Opened,
    Closed,
}

/// The number of events in `evs` equal to `e`.
pub open spec fn count_of(evs: Seq<CountEvent>, e: CountEvent) -> nat
    decreases evs.len(),
{
    if evs.len() == 0 {
        0
    } else {
        count_of(evs.drop_last(), e) + (if evs.last() == e { 1nat } else { 0nat })
    }
}

/// No prefix of `evs` closes more connections than `active` plus those it
/// opened: every release matches a live connection.
pub open spec fn never_below_zero(active: nat, evs: Seq<CountEvent>) -> bool {
    forall|i: int|
        0 <= i <= evs.len() ==> count_of(#[trigger] evs.subrange(0, i), CountEvent::Closed)
            <= active + count_of(evs.subrange(0, i), CountEvent::Opened)
}

/// The state after the events, and the waiters handed back on the way.
pub open spec fn replay<W>(s: LiveState<W>, evs: Seq<CountEvent>) -> (LiveState<W>, nat)
    decreases evs.len(),
{
    if evs.len() == 0 {
        (s, 0)
    } else {
        let (t, woken) = replay(s, evs.drop_last());
        match evs.last() {
            CountEvent::Opened => (register_step(t), woken),
            CountEvent::Closed => {
                let (u, w) = release_step(t);
                (u, woken + if w is Some { 1nat } else { 0nat })
            },
        }
    }
}

/// Whether the count reaches zero at some release among the events.
pub open spec fn reaches_zero(active: nat, evs: Seq<CountEvent>) -> bool {
    exists|i: int|
        0 < i <= evs.len() && evs[i - 1] == CountEvent::Closed
            && #[trigger] count_of(evs.subrange(0, i), CountEvent::Closed)
            == active + count_of(evs.subrange(0, i), CountEvent::Opened)
}

proof fn lemma_count_prefix(evs: Seq<CountEvent>)
    requires
        evs.len() > 0,
    ensures
        evs.subrange(0, evs.len() - 1) == evs.drop_last(),
        evs.subrange(0, evs.len() as int) == evs,
{
    assert(evs.subrange(0, evs.len() - 1) =~= evs.drop_last());
    assert(evs.subrange(0, evs.len() as int) =~= evs);
}

/// After any run of accepts and completions, the number of live connections
/// is the number it started with, plus those accepted, minus those completed;
/// and at most one waiter is ever handed back, and only if one was parked.
pub proof fn lemma_counting<W>(s: LiveState<W>, evs: Seq<CountEvent>)
    requires
        never_below_zero(s.active, evs),
    ensures
        replay(s, evs).0.active == s.active + count_of(evs, CountEvent::Opened) - count_of(
            evs,
            CountEvent::Closed,
        ),
        replay(s, evs).1 <= (if s.blocker is Some { 1nat } else { 0nat }),
        replay(s, evs).1 == 0 ==> replay(s, evs).0.blocker == s.blocker,
        replay(s, evs).1 == 1 ==> replay(s, evs).0.blocker is None,
    decreases evs.len(),
{
    if evs.len() > 0 {
        let pre = evs.drop_last();
        lemma_count_prefix(evs);
        assert forall|i: int| 0 <= i <= pre.len() implies count_of(
            #[trigger] pre.subrange(0, i),
            CountEvent::Closed,
        ) <= s.active + count_of(pre.subrange(0, i), CountEvent::Opened) by {
            assert(pre.subrange(0, i) =~= evs.subrange(0, i));
        }
        lemma_counting(s, pre);
        assert(evs.subrange(0, evs.len() as int) == evs);
    }
}

/// With a waiter parked, a run of accepts and completions hands it back
/// exactly once if the count reaches zero on the way, and never otherwise.
pub proof fn lemma_single_wake<W>(s: LiveState<W>, evs: Seq<CountEvent>)
    requires
        never_below_zero(s.active, evs),
        s.blocker is Some,
    ensures
        replay(s, evs).1 == (if reaches_zero(s.active, evs) { 1nat } else { 0nat }),
    decreases evs.len(),
{
    if evs.len() > 0 {
        let pre = evs.drop_last();
        lemma_count_prefix(evs);
        assert forall|i: int| 0 <= i <= pre.len() implies count_of(
            #[trigger] pre.subrange(0, i),
            CountEvent::Closed,
        ) <= s.active + count_of(pre.subrange(0, i), CountEvent::Opened) by {
            assert(pre.subrange(0, i) =~= evs.subrange(0, i));
        }
        lemma_single_wake(s, pre);
        lemma_counting(s, pre);
        if reaches_zero(s.active, pre) {
            let i = choose|i: int|
                0 < i <= pre.len() && pre[i - 1] == CountEvent::Closed
                    && #[trigger] count_of(pre.subrange(0, i), CountEvent::Closed)
                    == s.active + count_of(pre.subrange(0, i), CountEvent::Opened);
            assert(pre.subrange(0, i) =~= evs.subrange(0, i));
            assert(count_of(evs.subrange(0, i), CountEvent::Closed) == s.active + count_of(
                evs.subrange(0, i),
                CountEvent::Opened,
            ));
        } else {
            assert forall|i: int|
                0 < i < evs.len() && evs[i - 1] == CountEvent::Closed implies #[trigger] count_of(
                evs.subrange(0, i),
                CountEvent::Closed,
            ) != s.active + count_of(evs.subrange(0, i), CountEvent::Opened) by {
                assert(pre.subrange(0, i) =~= evs.subrange(0, i));
                assert(count_of(pre.subrange(0, i), CountEvent::Closed) != s.active + count_of(
                    pre.subrange(0, i),
                    CountEvent::Opened,
                ));
            }
            assert(evs.subrange(0, evs.len() as int) == evs);
        }
    }
}

} // verus!
