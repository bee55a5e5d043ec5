//! Shutdown accounting of the event loop.
//!
//! Three counters decide when the process may exit:
//! - `pending` is 0 once termination is committed; otherwise it is one more
//!   than the number of admitted actions that have not completed (the extra
//!   one is the driver slot);
//! - `status` tells whether a stop was requested;
//! - `balance` counts the actions that were enqueued and whose handling has
//!   not finished yet (the stop requests included).
//!
//! Every method is one atomic step; the executor holds the coordinator behind
//! a lock and performs the steps in the order the handlers reach them.
use vstd::prelude::*;

verus! {

/// Lifecycle status of the event loop.
#[derive(Clone, Copy, Debug, PartialEq, Eq, Structural)]
pub enum Status {
    Running,
    StopRequested,
    Stopping,
}

/// What an action handler does once it is dequeued.
#[derive(Clone, Copy, Debug, PartialEq, Eq, Structural)]
pub enum Admission {
    /// The action runs; its completion must be reported later.
    Run,
    /// Termination is committed: drop the action without touching the engine.
    Dismiss,
}

/// What the stop watcher does after one look at the counters.
#[derive(Clone, Copy, Debug, PartialEq, Eq, Structural)]
pub enum WatchStep {
    /// Termination is committed: send the completion signal.
    Done,
    /// Work is still outstanding: wait for a wake-up and look again.
    Wait,
}

/// Mathematical state of the coordinator.
pub struct LifecycleView {
    pub pending: nat,
    pub status: Status,
    pub balance: nat,
    /// Admitted actions whose completion has not been reported.
    pub running: nat,
}

impl LifecycleView {
    pub open spec fn terminated(self) -> bool {
        self.pending == 0
    }

    pub open spec fn wf(self) -> bool {
        &&& (self.pending == 0 ==> self.status != Status::Running)
        &&& (self.status == Status::Stopping ==> self.pending == 0)
        &&& (self.pending == 0 ==> self.running == 0)
        &&& (self.pending > 0 ==> self.pending == self.running + 1)
        &&& self.running <= self.balance
        &&& self.balance < u64::MAX
    }

    /// Actions enqueued whose handler has not yet been admitted or dismissed.
    pub open spec fn waiting(self) -> nat {
        (self.balance - self.running) as nat
    }
}

/// The state after an enqueue.
pub open spec fn append_spec(s: LifecycleView) -> LifecycleView {
    LifecycleView { balance: s.balance + 1, ..s }
}

/// The prologue of a handler: its outcome and the state after it.
pub open spec fn begin_spec(s: LifecycleView) -> (Admission, LifecycleView) {
    if s.pending == 0 {
        (Admission::Dismiss, LifecycleView { balance: (s.balance - 1) as nat, ..s })
    } else {
        (
            Admission::Run,
            LifecycleView { pending: s.pending + 1, running: s.running + 1, ..s },
        )
    }
}

/// The epilogue of an admitted action: whether it committed termination, and
/// the state after it.
pub open spec fn complete_spec(s: LifecycleView) -> (bool, LifecycleView) {
    if s.running == 1 && s.status == Status::StopRequested && s.balance == 1 {
        (true, LifecycleView { pending: 0, status: Status::Stopping, balance: 0, running: 0 })
    } else {
        (
            false,
            LifecycleView {
                pending: (s.pending - 1) as nat,
                running: (s.running - 1) as nat,
                balance: (s.balance - 1) as nat,
                ..s
            },
        )
    }
}

/// The state after the stop handler.
pub open spec fn exec_stop_spec(s: LifecycleView) -> LifecycleView {
    LifecycleView { status: Status::StopRequested, balance: (s.balance - 1) as nat, ..s }
}

/// One look of the stop watcher: its outcome and the state after it. It
/// waits while any enqueued action has not finished its handling, dismissed
/// ones included.
pub open spec fn watch_spec(s: LifecycleView) -> (WatchStep, LifecycleView) {
    if s.balance > 0 {
        (WatchStep::Wait, s)
    } else {
        (WatchStep::Done, LifecycleView { pending: 0, status: Status::Stopping, ..s })
    }
}

/// The steps of the coordinator.
#[derive(Clone, Copy, Debug, PartialEq, Eq, Structural)]
pub enum Step {
    Append,
    Begin,
    Complete,
    Stop,
    Watch,
}

/// When a step may be taken: the preconditions of the matching method.
pub open spec fn enabled(s: LifecycleView, e: Step) -> bool {
    match e {
        Step::Append => s.balance + 1 < u64::MAX,
        Step::Begin => s.waiting() > 0,
        Step::Complete => s.running > 0,
        Step::Stop => s.waiting() > 0,
        Step::Watch => s.status != Status::Running,
    }
}

/// The state after a step.
pub open spec fn next(s: LifecycleView, e: Step) -> LifecycleView {
    match e {
        Step::Append => append_spec(s),
        Step::Begin => begin_spec(s).1,
        Step::Complete => complete_spec(s).1,
        Step::Stop => exec_stop_spec(s),
        Step::Watch => watch_spec(s).1,
    }
}

pub struct Lifecycle {
    pending: u64,
    status: Status,
    balance: u64,
    running: Ghost<nat>,
}

impl View for Lifecycle {
    type V = LifecycleView;

    closed spec fn view(&self) -> LifecycleView {
        LifecycleView {
            pending: self.pending as nat,
            status: self.status,
            balance: self.balance as nat,
            running: self.running@,
        }
    }
}

impl Lifecycle {
    pub open spec fn wf(&self) -> bool {
        self@.wf()
    }

    /// The state at start-up: the driver slot only, nothing enqueued.
    pub fn new() -> (r: Lifecycle)
        ensures
            r.wf(),
            r@ == (LifecycleView { pending: 1, status: Status::Running, balance: 0, running: 0 }),
    {
        Lifecycle { pending: 1, status: Status::Running, balance: 0, running: Ghost(0) }
    }

    pub fn status(&self) -> (r: Status)
        ensures
            r == self@.status,
    {
        self.status
    }

    pub fn is_terminated(&self) -> (r: bool)
        ensures
            r == self@.terminated(),
    {
        self.pending == 0
    }

    /// Number of admitted actions that have not completed.
    pub fn in_flight(&self) -> (r: u64)
        requires
            self.wf(),
        ensures
            r == self@.running,
    {
        if self.pending == 0 {
            0
        } else {
            self.pending - 1
        }
    }

    /// Number of actions enqueued whose handler has not been admitted or dismissed.
    pub fn waiting(&self) -> (r: u64)
        requires
            self.wf(),
        ensures
            r == self@.waiting(),
    {
        self.balance - self.in_flight()
    }

    /// Whether one more action can be enqueued without the counters overflowing.
    pub fn can_append(&self) -> (r: bool)
        ensures
            r == (self@.balance + 1 < u64::MAX),
    {
        self.balance < u64::MAX - 1
    }

    /// Accounting of an enqueue; it must happen before the action reaches the
    /// queue, so that the watcher never reads an empty balance while an action
    /// is on its way.
    pub fn append(&mut self)
        requires
            old(self).wf(),
            old(self)@.balance + 1 < u64::MAX,
        ensures
            final(self).wf(),
            final(self)@ == append_spec(old(self)@),
    {
        self.balance = self.balance + 1;
    }

    /// Prologue of every handler but the stop handler: the action runs unless
    /// termination is already committed, in which case it is dismissed and its
    /// enqueue is accounted for at once.
    pub fn begin(&mut self) -> (r: Admission)
        requires
            old(self).wf(),
            old(self)@.waiting() > 0,
        ensures
            final(self).wf(),
            (r, final(self)@) == begin_spec(old(self)@),
    {
        if self.pending == 0 {
            self.balance = self.balance - 1;
            Admission::Dismiss
        } else {
            self.pending = self.pending + 1;
            self.running = Ghost(self.running@ + 1);
            Admission::Run
        }
    }

    /// Epilogue of an admitted action, after its critical section. When it was
    /// the last outstanding work and a stop was requested, termination is
    /// committed here; the result tells whether that happened.
    pub fn complete(&mut self) -> (r: bool)
        requires
            old(self).wf(),
            old(self)@.running > 0,
        ensures
            final(self).wf(),
            (r, final(self)@) == complete_spec(old(self)@),
    {
        self.pending = self.pending - 1;
        self.running = Ghost((self.running@ - 1) as nat);
        let stop = self.pending == 1 && self.status == Status::StopRequested && self.balance == 1;
        if stop {
            self.pending = 0;
            self.status = Status::Stopping;
        }
        self.balance = self.balance - 1;
        stop
    }

    /// The stop handler: records the stop request and accounts for the
    /// dequeued stop action. It does not touch `pending`, so a committed
    /// termination is never undone.
    pub fn exec_stop(&mut self)
        requires
            old(self).wf(),
            old(self)@.waiting() > 0,
        ensures
            final(self).wf(),
            final(self)@ == exec_stop_spec(old(self)@),
    {
        self.status = Status::StopRequested;
        self.balance = self.balance - 1;
    }

    /// One look of the stop watcher. It waits while the balance is positive;
    /// otherwise nothing is enqueued or running and termination is committed
    /// (or already was).
    pub fn watch(&mut self) -> (r: WatchStep)
        requires
            old(self).wf(),
            old(self)@.status != Status::Running,
        ensures
            final(self).wf(),
            (r, final(self)@) == watch_spec(old(self)@),
    {
        if self.balance > 0 {
            WatchStep::Wait
        } else {
            self.pending = 0;
            self.status = Status::Stopping;
            WatchStep::Done
        }
    }
}

/// Every enabled step keeps the coordinator well formed.
pub proof fn lemma_step_keeps_wf(s: LifecycleView, e: Step)
    requires
        s.wf(),
        enabled(s, e),
    ensures
        next(s, e).wf(),
{
}

/// `pending` is a natural number that reaches 0 only by a step taken after a
/// stop was requested, when no admitted action is outstanding and nothing else
/// is enqueued; once 0 it stays 0, and the status never returns to running.
/// `Stopping` is reached only with `pending` at 0.
pub proof fn lemma_termination_after_stop(s: LifecycleView, e: Step)
    requires
        s.wf(),
        enabled(s, e),
    ensures
        s.terminated() ==> next(s, e).terminated(),
        next(s, e).terminated() && !s.terminated() ==> s.status == Status::StopRequested
            && next(s, e).running == 0 && next(s, e).balance == 0,
        s.status != Status::Running ==> next(s, e).status != Status::Running,
        next(s, e).terminated() ==> next(s, e).status != Status::Running,
        next(s, e).status == Status::Stopping ==> next(s, e).terminated(),
{
}

/// An action dequeued once termination is committed is dismissed. The
/// watcher signals completion only when nothing enqueued is left unhandled
/// and no admitted action is outstanding, and termination is then committed.
pub proof fn lemma_dismiss_after_termination(s: LifecycleView)
    requires
        s.wf(),
    ensures
        s.terminated() ==> begin_spec(s).0 == Admission::Dismiss,
        !s.terminated() ==> begin_spec(s).0 == Admission::Run,
        watch_spec(s).0 == WatchStep::Done <==> s.balance == 0,
        watch_spec(s).0 == WatchStep::Done ==> s.waiting() == 0 && s.running == 0
            && watch_spec(s).1.terminated(),
{
}

} // verus!
