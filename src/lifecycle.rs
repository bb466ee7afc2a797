use vstd::prelude::*;

verus! {

/// Where the service stands in its life.
#[derive(Clone, Copy, PartialEq, Eq, Structural, Debug)]
pub enum Phase {
    /// Accepting and serving requests.
    Running,
    /// No longer accepting; waiting for the requests in flight.
    ShuttingDown,
    /// The accept loop has ended.
    Terminated,
}

/// What the serving loop reports to the lifecycle.
#[derive(Clone, Copy, PartialEq, Eq, Structural, Debug)]
pub enum Event {
    /// A new request (or connection) wants to be served.
    RequestArrived,
    /// A request that was dispatched has produced its response.
    RequestFinished,
    /// An interrupt or termination signal arrived.
    ShutdownSignal,
    /// The accept loop failed with an I/O error.
    AcceptFailed,
}

/// What the serving loop is to do next.
#[derive(Clone, Copy, PartialEq, Eq, Structural, Debug)]
pub enum Action {
    /// Serve the request that arrived.
    Dispatch,
    /// Do not serve the request that arrived.
    Refuse,
    /// Stop accepting, keep serving what is in flight.
    StopAccepting,
    /// The accept loop is over; `failed` tells an I/O failure from a graceful end.
    Exit { failed: bool },
    /// Nothing to do.
    Wait,
}

/// The graceful-shutdown state machine of the service.
pub struct Lifecycle {
    pub phase: Phase,
    /// Requests dispatched and not yet finished.
    pub in_flight: u64,
    /// Whether the accept loop ended on an I/O failure.
    pub failed: bool,
}

impl Lifecycle {
    /// A shutting-down service still has requests to wait for; a service that ended
    /// gracefully has none left.
    pub open spec fn wf(self) -> bool {
        &&& self.phase is ShuttingDown ==> self.in_flight > 0
        &&& self.phase is Terminated && !self.failed ==> self.in_flight == 0
        &&& self.phase !is Terminated ==> !self.failed
    }

    /// The next state and the action for one event.
    pub open spec fn transition(self, e: Event) -> (Lifecycle, Action) {
        match self.phase {
            Phase::Running => match e {
                Event::RequestArrived => if self.in_flight < u64::MAX {
                    (Lifecycle { in_flight: (self.in_flight + 1) as u64, ..self }, Action::Dispatch)
                } else {
                    (self, Action::Refuse)
                },
                Event::RequestFinished => if self.in_flight > 0 {
                    (Lifecycle { in_flight: (self.in_flight - 1) as u64, ..self }, Action::Wait)
                } else {
                    (self, Action::Wait)
                },
                Event::ShutdownSignal => if self.in_flight == 0 {
                    (Lifecycle { phase: Phase::Terminated, ..self }, Action::Exit { failed: false })
                } else {
                    (Lifecycle { phase: Phase::ShuttingDown, ..self }, Action::StopAccepting)
                },
                Event::AcceptFailed => (
                    Lifecycle { phase: Phase::Terminated, failed: true, ..self },
                    Action::Exit { failed: true },
                ),
            },
            Phase::ShuttingDown => match e {
                Event::RequestArrived => (self, Action::Refuse),
                Event::RequestFinished => if self.in_flight <= 1 {
                    (Lifecycle { phase: Phase::Terminated, in_flight: 0, ..self }, Action::Exit { failed: false })
                } else {
                    (Lifecycle { in_flight: (self.in_flight - 1) as u64, ..self }, Action::Wait)
                },
                Event::AcceptFailed => (
                    Lifecycle { phase: Phase::Terminated, failed: true, ..self },
                    Action::Exit { failed: true },
                ),
                Event::ShutdownSignal => (self, Action::Wait),
            },
            Phase::Terminated => match e {
                Event::RequestArrived => (self, Action::Refuse),
                _ => (self, Action::Wait),
            },
        }
    }

    /// The actions for a run of events, one each.
    pub open spec fn run(self, events: Seq<Event>) -> Seq<Action>
        decreases events.len(),
    {
        if events.len() == 0 {
            Seq::empty()
        } else {
            let (next, a) = self.transition(events[0]);
            seq![a] + next.run(events.drop_first())
        }
    }

    /// The state after a run of events.
    pub open spec fn after(self, events: Seq<Event>) -> Lifecycle
        decreases events.len(),
    {
        if events.len() == 0 {
            self
        } else {
            self.transition(events[0]).0.after(events.drop_first())
        }
    }

    /// After a shutdown signal, whatever events follow, no request is dispatched.
    pub open spec fn refuses_after_signal(self) -> bool {
        forall|events: Seq<Event>, k: int, i: int|
            #![trigger events[k], self.run(events)[i]]
            0 <= k < i < events.len() && events[k] == Event::ShutdownSignal
                ==> self.run(events)[i] != Action::Dispatch
    }

    /// A shutdown signal, whenever it comes, cancels no request in flight.
    pub open spec fn signal_cancels_nothing(self) -> bool {
        forall|events: Seq<Event>|
            (#[trigger] self.after(events)).transition(Event::ShutdownSignal).0.in_flight
                == self.after(events).in_flight
    }

    /// Whatever events come, a graceful end leaves no request in flight.
    pub open spec fn ends_drained(self) -> bool {
        forall|events: Seq<Event>|
            (#[trigger] self.after(events)).phase is Terminated && !self.after(events).failed
                ==> self.after(events).in_flight == 0
    }

    /// A service that has just started.
    pub fn new() -> (r: Lifecycle)
        ensures
            r.wf(),
            r.phase is Running,
            r.in_flight == 0,
            r.refuses_after_signal(),
            r.signal_cancels_nothing(),
            r.ends_drained(),
    {
        let r = Lifecycle { phase: Phase::Running, in_flight: 0, failed: false };
        proof { lemma_shutdown_rules(r); }
        r
    }

    /// Takes one event, moves to the next state and says what to do.
    pub fn step(&mut self, e: Event) -> (a: Action)
        requires
            old(self).wf(),
        ensures
            (*final(self), a) == old(self).transition(e),
            final(self).wf(),
    {
        match self.phase {
            Phase::Running => match e {
                Event::RequestArrived => if self.in_flight < u64::MAX {
                    self.in_flight = self.in_flight + 1;
                    Action::Dispatch
                } else {
                    Action::Refuse
                },
                Event::RequestFinished => {
                    if self.in_flight > 0 {
                        self.in_flight = self.in_flight - 1;
                    }
                    Action::Wait
                },
                Event::ShutdownSignal => if self.in_flight == 0 {
                    self.phase = Phase::Terminated;
                    Action::Exit { failed: false }
                } else {
                    self.phase = Phase::ShuttingDown;
                    Action::StopAccepting
                },
                Event::AcceptFailed => {
                    self.phase = Phase::Terminated;
                    self.failed = true;
                    Action::Exit { failed: true }
                },
            },
            Phase::ShuttingDown => match e {
                Event::RequestArrived => Action::Refuse,
                Event::RequestFinished => if self.in_flight <= 1 {
                    self.phase = Phase::Terminated;
                    self.in_flight = 0;
                    Action::Exit { failed: false }
                } else {
                    self.in_flight = self.in_flight - 1;
                    Action::Wait
                },
                Event::AcceptFailed => {
                    self.phase = Phase::Terminated;
                    self.failed = true;
                    Action::Exit { failed: true }
                },
                Event::ShutdownSignal => Action::Wait,
            },
            Phase::Terminated => match e {
                Event::RequestArrived => Action::Refuse,
                _ => Action::Wait,
            },
        }
    }
}

/// Every transition keeps the state well formed.
pub proof fn lemma_transition_wf(s: Lifecycle, e: Event)
    requires
        s.wf(),
    ensures
        s.transition(e).0.wf(),
{
}

/// A shutdown signal ends acceptance and cancels nothing: the requests in flight stay
/// counted until each has finished.
pub proof fn lemma_shutdown_keeps_in_flight(s: Lifecycle)
    requires
        s.wf(),
        s.phase is Running,
    ensures
        s.transition(Event::ShutdownSignal).0.phase !is Running,
        s.transition(Event::ShutdownSignal).0.in_flight == s.in_flight,
        s.in_flight > 0 ==> s.transition(Event::ShutdownSignal).0.phase is ShuttingDown,
{
}

/// Once the service has left `Running`, it never returns to it and dispatches no request,
/// whatever events follow.
pub proof fn lemma_no_dispatch_once_stopped(s: Lifecycle, events: Seq<Event>)
    requires
        s.wf(),
        s.phase !is Running,
    ensures
        s.after(events).phase !is Running,
        s.after(events).wf(),
        s.run(events).len() == events.len(),
        forall|i: int| 0 <= i < events.len() ==> s.run(events)[i] != Action::Dispatch,
    decreases events.len(),
{
    if events.len() > 0 {
        let next = s.transition(events[0]).0;
        lemma_no_dispatch_once_stopped(next, events.drop_first());
        let rest = next.run(events.drop_first());
        assert forall|i: int| 0 <= i < events.len() implies s.run(events)[i] != Action::Dispatch by {
            if i > 0 {
                assert(s.run(events)[i] == rest[i - 1]);
            }
        }
    }
}

/// After a shutdown signal, no later request is dispatched, and a graceful end comes only
/// once every request in flight has finished.
pub proof fn lemma_no_dispatch_after_signal(s: Lifecycle, events: Seq<Event>, k: int)
    requires
        s.wf(),
        0 <= k < events.len(),
        events[k] == Event::ShutdownSignal,
    ensures
        s.run(events).len() == events.len(),
        forall|i: int| k < i < events.len() ==> s.run(events)[i] != Action::Dispatch,
        s.after(events).phase is Terminated && !s.after(events).failed ==> s.after(events).in_flight == 0,
    decreases k,
{
    let next = s.transition(events[0]).0;
    lemma_transition_wf(s, events[0]);
    if k == 0 {
        lemma_shutdown_stops(s);
        lemma_no_dispatch_once_stopped(next, events.drop_first());
    } else {
        lemma_no_dispatch_after_signal(next, events.drop_first(), k - 1);
    }
    let rest = next.run(events.drop_first());
    assert forall|i: int| k < i < events.len() implies s.run(events)[i] != Action::Dispatch by {
        assert(s.run(events)[i] == rest[i - 1]);
    }
}

/// From any well-formed state the run of events stays well formed.
pub proof fn lemma_after_wf(s: Lifecycle, events: Seq<Event>)
    requires
        s.wf(),
    ensures
        s.after(events).wf(),
    decreases events.len(),
{
    if events.len() > 0 {
        lemma_transition_wf(s, events[0]);
        lemma_after_wf(s.transition(events[0]).0, events.drop_first());
    }
}

/// A well-formed service refuses new requests after a shutdown signal, lets the ones in
/// flight finish, and ends gracefully only once they have.
pub proof fn lemma_shutdown_rules(s: Lifecycle)
    requires
        s.wf(),
    ensures
        s.refuses_after_signal(),
        s.signal_cancels_nothing(),
        s.ends_drained(),
{
    assert forall|events: Seq<Event>, k: int, i: int|
        #![trigger events[k], s.run(events)[i]]
        0 <= k < i < events.len() && events[k] == Event::ShutdownSignal
        implies s.run(events)[i] != Action::Dispatch by {
        lemma_no_dispatch_after_signal(s, events, k);
    }
    assert forall|events: Seq<Event>|
        (#[trigger] s.after(events)).phase is Terminated && !s.after(events).failed
        implies s.after(events).in_flight == 0 by {
        lemma_after_wf(s, events);
    }
}

proof fn lemma_shutdown_stops(s: Lifecycle)
    requires
        s.wf(),
    ensures
        s.transition(Event::ShutdownSignal).0.phase !is Running,
{
}

} // verus!
