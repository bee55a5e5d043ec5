//! Registry of cancellable timers.
//!
//! `setTimeout` registers a timer under an integer handle; `clearTimeout`
//! removes it and hands back its cancel signal. A handle is the next free one
//! after the last handed out, wrapping around at the integer maximum, so no two
//! outstanding timers share a handle. Each registration also gets a serial
//! number that is never reused: a timer whose sleep ended fires only if its own
//! registration is still there, so a cancelled timer never runs, even when its
//! handle was handed out again.
use std::collections::HashMap;
use vstd::prelude::*;

verus! {

broadcast use vstd::std_specs::hash::group_hash_axioms;

/// Number of distinct handles.
pub open spec fn handle_count() -> int {
    0x1_0000_0000
}

/// The handle `j` steps after `a`, wrapping around (`1 <= j <= handle_count()`).
pub open spec fn handle_after(a: u32, j: int) -> int {
    if a + j < handle_count() {
        a + j
    } else {
        a + j - handle_count()
    }
}

/// The registration of one timer.
#[derive(Clone, Copy, Debug, PartialEq, Eq, Structural)]
pub struct TimerTicket {
    /// The handle the script sees.
    pub index: u32,
    /// Unique to this registration.
    pub serial: u64,
}

/// Mathematical state of the registry.
pub struct TimeoutCancelersView<C> {
    /// Outstanding timers: handle to serial and cancel signal.
    pub entries: Map<u32, (u64, C)>,
    /// The last handle handed out.
    pub index: u32,
    /// The serial of the next registration.
    pub next_serial: nat,
}

impl<C> TimeoutCancelersView<C> {
    pub open spec fn wf(self) -> bool {
        &&& forall|h: u32| #[trigger]
            self.entries.contains_key(h) ==> (self.entries[h].0 as nat) < self.next_serial
        &&& self.next_serial <= u64::MAX
    }

    /// The timer of this ticket is registered and not cancelled.
    pub open spec fn live(self, t: TimerTicket) -> bool {
        self.entries.contains_key(t.index) && self.entries[t.index].0 == t.serial
    }

    /// The ticket was handed out and its timer is gone: cancelled or fired.
    pub open spec fn dead(self, t: TimerTicket) -> bool {
        (t.serial as nat) < self.next_serial && !self.live(t)
    }

    /// Every handle is taken.
    pub open spec fn full(self) -> bool {
        forall|h: u32| #[trigger] self.entries.contains_key(h)
    }
}

pub struct TimeoutCancelers<C> {
    cancel_senders: HashMap<u32, (u64, C)>,
    index: u32,
    next_serial: u64,
}

impl<C> View for TimeoutCancelers<C> {
    type V = TimeoutCancelersView<C>;

    closed spec fn view(&self) -> TimeoutCancelersView<C> {
        TimeoutCancelersView {
            entries: self.cancel_senders@,
            index: self.index,
            next_serial: self.next_serial as nat,
        }
    }
}

impl<C> TimeoutCancelers<C> {
    pub open spec fn wf(&self) -> bool {
        self@.wf()
    }

    /// An empty registry; the first handle handed out is 1.
    pub fn new() -> (r: Self)
        ensures
            r.wf(),
            r@.entries == Map::<u32, (u64, C)>::empty(),
            r@.index == 0,
            r@.next_serial == 0,
    {
        TimeoutCancelers { cancel_senders: HashMap::new(), index: 0, next_serial: 0 }
    }

    /// Whether a timer is registered under this handle.
    pub fn contains(&self, index: u32) -> (r: bool)
        ensures
            r == self@.entries.contains_key(index),
    {
        self.cancel_senders.contains_key(&index)
    }

    /// Registers a timer with its cancel signal under the first free handle
    /// after the last one handed out. Fails only when every handle is taken
    /// or the serial numbers are used up.
    pub fn append(&mut self, canceler: C) -> (r: Option<TimerTicket>)
        requires
            old(self).wf(),
        ensures
            final(self).wf(),
            r is None <==> (old(self)@.full() || old(self)@.next_serial == u64::MAX),
            r is None ==> final(self)@ == old(self)@,
            r matches Some(t) ==> {
                &&& !old(self)@.entries.contains_key(t.index)
                &&& t.serial == old(self)@.next_serial
                &&& final(self)@ == (TimeoutCancelersView {
                    entries: old(self)@.entries.insert(t.index, (t.serial, canceler)),
                    index: t.index,
                    next_serial: old(self)@.next_serial + 1,
                })
                &&& exists|d: int|
                    1 <= d <= handle_count() && t.index == handle_after(old(self)@.index, d)
                        && forall|j: int|
                        1 <= j < d ==> old(self)@.entries.contains_key(
                            #[trigger] handle_after(old(self)@.index, j) as u32,
                        )
            },
    {
        if self.next_serial == u64::MAX {
            return None;
        }
        let start = self.index;
        let mut tries: u64 = 1;
        while tries <= 0x1_0000_0000
            invariant
                1 <= tries <= 0x1_0000_0001,
                self@ == old(self)@,
                self@.wf(),
                self.next_serial < u64::MAX,
                start == self@.index,
                forall|j: int|
                    1 <= j < tries ==> self@.entries.contains_key(
                        #[trigger] handle_after(start, j) as u32,
                    ),
            decreases 0x1_0000_0001 - tries,
        {
            let sum: u64 = start as u64 + tries;
            let candidate: u32 = if sum < 0x1_0000_0000 {
                sum as u32
            } else {
                (sum - 0x1_0000_0000) as u32
            };
            assert(candidate == handle_after(start, tries as int));
            if !self.cancel_senders.contains_key(&candidate) {
                let serial = self.next_serial;
                let ghost before = self@;
                self.cancel_senders.insert(candidate, (serial, canceler));
                self.index = candidate;
                self.next_serial = serial + 1;
                let t = TimerTicket { index: candidate, serial };
                assert forall|h: u32| #[trigger] self@.entries.contains_key(h) implies (
                self@.entries[h].0 as nat) < self@.next_serial by {
                    if h != candidate {
                        assert(before.entries.contains_key(h));
                    }
                }
                assert(1 <= tries as int <= handle_count() && t.index == handle_after(
                    start,
                    tries as int,
                ));
                return Some(t);
            }
            tries = tries + 1;
        }
        proof {
            assert forall|h: u32| #[trigger] self@.entries.contains_key(h) by {
                let j: int = if h > start {
                    h - start
                } else {
                    h - start + handle_count()
                };
                assert(handle_after(start, j) == h);
            }
        }
        None
    }

    /// `clearTimeout`: unregisters the timer under this handle and hands back
    /// its cancel signal, if one was registered.
    pub fn cancel(&mut self, index: u32) -> (r: Option<C>)
        requires
            old(self).wf(),
        ensures
            final(self).wf(),
            final(self)@ == (TimeoutCancelersView {
                entries: old(self)@.entries.remove(index),
                ..old(self)@
            }),
            r is Some <==> old(self)@.entries.contains_key(index),
            r matches Some(c) ==> c == old(self)@.entries[index].1,
    {
        match self.cancel_senders.remove(&index) {
            Some(entry) => Some(entry.1),
            None => None,
        }
    }

    /// A timer's sleep ended: it fires only if its registration is still
    /// there, which is then removed.
    pub fn fire(&mut self, ticket: TimerTicket) -> (r: bool)
        requires
            old(self).wf(),
        ensures
            final(self).wf(),
            r == old(self)@.live(ticket),
            r ==> final(self)@ == (TimeoutCancelersView {
                entries: old(self)@.entries.remove(ticket.index),
                ..old(self)@
            }),
            !r ==> final(self)@ == old(self)@,
    {
        let live = match self.cancel_senders.get(&ticket.index) {
            Some(entry) => entry.0 == ticket.serial,
            None => false,
        };
        if live {
            self.cancel_senders.remove(&ticket.index);
        }
        live
    }
}

/// The sleep of `setTimeout(f, ms)`, in milliseconds: a negative delay counts
/// as zero.
pub fn delay_ms(requested: i64) -> (r: u64)
    ensures
        r == if requested < 0 {
            0
        } else {
            requested as int
        },
{
    if requested < 0 {
        0
    } else {
        requested as u64
    }
}

/// Cancelling a registered timer leaves its ticket dead.
pub proof fn lemma_cancel_kills<C>(s: TimeoutCancelersView<C>, t: TimerTicket)
    requires
        s.wf(),
        (t.serial as nat) < s.next_serial,
    ensures
        (TimeoutCancelersView { entries: s.entries.remove(t.index), ..s }).dead(t),
{
}

/// Registering another timer never brings a dead ticket back: the new
/// registration carries a serial no earlier ticket has.
pub proof fn lemma_register_keeps_dead<C>(
    s: TimeoutCancelersView<C>,
    t: TimerTicket,
    u: TimerTicket,
    c: C,
)
    requires
        s.wf(),
        s.dead(t),
        !s.entries.contains_key(u.index),
        u.serial == s.next_serial,
    ensures
        (TimeoutCancelersView {
            entries: s.entries.insert(u.index, (u.serial, c)),
            index: u.index,
            next_serial: s.next_serial + 1,
        }).dead(t),
{
}

/// Cancelling or firing any timer keeps a dead ticket dead.
pub proof fn lemma_remove_keeps_dead<C>(s: TimeoutCancelersView<C>, t: TimerTicket, h: u32)
    requires
        s.dead(t),
    ensures
        (TimeoutCancelersView { entries: s.entries.remove(h), ..s }).dead(t),
{
}

} // verus!
