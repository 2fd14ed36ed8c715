//! The event loop's state and the decisions taken in each of its phases.
//!
//! A loop iteration is: [`Runtime::poll`], then [`Runtime::dispatch_io`] for
//! each source that [`Runtime::next_ready`] yields, then
//! [`Runtime::fire_timers`], [`Runtime::process_control`] and
//! [`Runtime::process_shutdown`]. Times are milliseconds of a monotonic clock.

use std::collections::HashMap;
use vstd::prelude::*;

use crate::control::{take, waiting, ControlEvent, Controller, Polled};
use crate::event::IoSrc;
use crate::resource::{Broker, IoManager, Resource};
use crate::timeout::TimeoutManager;

verus! {

broadcast use vstd::std_specs::hash::group_hash_axioms;

/// Where an error raised by a resource went.
#[derive(Copy, Clone, PartialEq, Eq, Debug, Structural)]
pub enum Handling {
    /// The call succeeded; there was no error.
    Done,
    /// The resource's own recovery swallowed the error.
    Recovered,
    /// The resource's recovery passed an error on to the broker.
    Escalated,
}

/// What the runtime did with one control event.
pub enum Applied<Id> {
    /// A resource was built, its handle is watched, and it is stored under `id`.
    Connected { id: Id },
    /// A resource was built but the I/O manager refused its handle: the error
    /// went through the resource's recovery, and the resource was dropped.
    Unwatched { id: Id, handling: Handling },
    /// The resource could not be built; the error went to the broker.
    Refused,
    /// Nothing is stored under `id` any more; `released` tells whether the
    /// I/O manager let its handle go (if not, its error went to the broker).
    Disconnected { id: Id, released: bool },
    /// A timer was queued for the given deadline.
    TimerSet { deadline: u64 },
    /// The command was handed to the resource stored under `id`.
    Delivered { id: Id, handling: Handling },
    /// No resource is stored under the id; the command was dropped.
    Dropped,
}

/// What the loop is to do after checking for shutdown.
pub enum Signal {
    /// No shutdown was asked for.
    Continue,
    /// Shutdown was asked for: every resource is gone and the loop must end.
    Stop,
    /// Every sender of the shutdown channel is gone, which is a programming
    /// error in the owner of the runtime.
    Orphaned,
}

/// The control channel was found disconnected, which cannot happen while the
/// runtime itself holds a sender of it.
pub struct ControlLost;

/// `after` is `before` with exactly one more item at the end.
pub open spec fn one_more<T>(before: Seq<T>, after: Seq<T>) -> bool {
    &&& after.len() == before.len() + 1
    &&& forall|i: int| 0 <= i < before.len() ==> #[trigger] after[i] == before[i]
}

/// How one call on a resource ended and where its error went: with no error,
/// nothing was offered or reported; otherwise the error the call raised was
/// offered to the resource's recovery, and the broker got one more error
/// exactly when that recovery passed one on.
pub open spec fn routed<R: Resource>(
    before: R,
    after: R,
    errors: Seq<R::Error>,
    errors2: Seq<R::Error>,
    h: Handling,
) -> bool {
    &&& h is Done ==> {
        &&& after.raised() == before.raised()
        &&& after.offered() == before.offered()
        &&& errors2 == errors
    }
    &&& !(h is Done) ==> {
        &&& one_more(before.raised(), after.raised())
        &&& after.offered() == before.offered().push(after.raised().last())
    }
    &&& h is Recovered ==> errors2 == errors
    &&& h is Escalated ==> one_more(errors, errors2)
}

/// The registry after a resource was stored under `id` and its handle watched.
pub open spec fn connect_effect<Id, R>(
    reg: Map<Id, R>,
    mon: Set<Id>,
    reg2: Map<Id, R>,
    mon2: Set<Id>,
    id: Id,
) -> bool {
    &&& reg2.contains_key(id)
    &&& reg2 == reg.insert(id, reg2[id])
    &&& mon2 == mon.insert(id)
}

/// The registry after `id` was removed, and the I/O manager state after it
/// was (or was not) released there.
pub open spec fn disconnect_effect<Id, R>(
    reg: Map<Id, R>,
    mon: Set<Id>,
    reg2: Map<Id, R>,
    mon2: Set<Id>,
    id: Id,
    released: bool,
) -> bool {
    &&& reg2 == reg.remove(id)
    &&& mon2 == if released { mon.remove(id) } else { mon }
}

/// Only the resource stored under `id`, if any, may have changed; no resource
/// came or went.
pub open spec fn touches_only<Id, R>(reg: Map<Id, R>, reg2: Map<Id, R>, id: Id) -> bool {
    &&& reg2.dom() == reg.dom()
    &&& forall|k: Id| #[trigger] reg.contains_key(k) && k != id ==> reg2[k] == reg[k]
    &&& !reg.contains_key(id) ==> reg2 == reg
}

/// A deadline `after` milliseconds past `now`, held at the end of the clock.
pub open spec fn deadline_after(now: u64, after: u64) -> u64 {
    if now + after > u64::MAX {
        u64::MAX
    } else {
        (now + after) as u64
    }
}

/// What applying one control event `event` at `now` did: `before` and
/// `after` are the runtime around it and `r` the report.
pub open spec fn control_step<R: Resource, IO: IoManager<R>, B: Broker<R>>(
    before: Runtime<R, IO, B>,
    event: ControlEvent<R>,
    now: u64,
    after: Runtime<R, IO, B>,
    r: Applied<R::Id>,
) -> bool {
    &&& match event {
        ControlEvent::Connect(_) => match r {
            Applied::Connected { id } => connect_effect(
                before.registry(),
                before.monitored(),
                after.registry(),
                after.monitored(),
                id,
            ) && after.errors() == before.errors(),
            Applied::Unwatched { handling, .. } => {
                &&& after.registry() == before.registry()
                &&& after.monitored() == before.monitored()
                &&& !(handling is Done)
                &&& handling is Recovered ==> after.errors() == before.errors()
                &&& handling is Escalated ==> one_more(before.errors(), after.errors())
            },
            Applied::Refused => {
                &&& after.registry() == before.registry()
                &&& after.monitored() == before.monitored()
                &&& one_more(before.errors(), after.errors())
            },
            _ => false,
        },
        ControlEvent::Disconnect(id) => match r {
            Applied::Disconnected { id: gone, released } => {
                &&& gone == id
                &&& disconnect_effect(
                    before.registry(),
                    before.monitored(),
                    after.registry(),
                    after.monitored(),
                    id,
                    released,
                )
                &&& released ==> after.errors() == before.errors()
                &&& !released ==> one_more(before.errors(), after.errors())
            },
            _ => false,
        },
        ControlEvent::SetTimer(delay, token) => {
            let deadline = deadline_after(now, delay);
            &&& r == Applied::<R::Id>::TimerSet { deadline }
            &&& after.timers() == before.timers().insert(
                crate::timeout::due_count(before.timers(), deadline) as int,
                (deadline, token),
            )
            &&& after.registry() == before.registry()
            &&& after.monitored() == before.monitored()
            &&& after.errors() == before.errors()
        },
        ControlEvent::Send(id, cmd) => {
            &&& touches_only(before.registry(), after.registry(), id)
            &&& after.monitored() == before.monitored()
            &&& if before.registry().contains_key(id) {
                let res0 = before.registry()[id];
                let res1 = after.registry()[id];
                &&& r matches Applied::Delivered { id: to, handling } && to == id
                    && routed(res0, res1, before.errors(), after.errors(), handling)
                &&& res1.commands() == res0.commands().push(cmd)
                &&& res1.seen() == res0.seen()
            } else {
                &&& r is Dropped
                &&& after.errors() == before.errors()
            }
        },
    }
    &&& !(event is SetTimer) ==> after.timers() == before.timers()
    &&& after.fired() == before.fired()
}

/// Applying `events` in order at `now`, one step each, leads from `before`
/// to `after` with the given reports.
pub open spec fn control_run<R: Resource, IO: IoManager<R>, B: Broker<R>>(
    before: Runtime<R, IO, B>,
    events: Seq<ControlEvent<R>>,
    now: u64,
    after: Runtime<R, IO, B>,
    reports: Seq<Applied<R::Id>>,
) -> bool {
    exists|states: Seq<Runtime<R, IO, B>>|
        {
            &&& states.len() == events.len() + 1
            &&& reports.len() == events.len()
            &&& states[0] == before
            &&& states.last() == after
            &&& forall|i: int|
                0 <= i < events.len() ==> control_step(
                    states[i],
                    #[trigger] events[i],
                    now,
                    states[i + 1],
                    reports[i],
                )
        }
}

/// Some sequence of control events, applied in order at `now`, leads from
/// `before` to `after` with the given reports.
pub open spec fn control_reachable<R: Resource, IO: IoManager<R>, B: Broker<R>>(
    before: Runtime<R, IO, B>,
    now: u64,
    after: Runtime<R, IO, B>,
    reports: Seq<Applied<R::Id>>,
) -> bool {
    exists|events: Seq<ControlEvent<R>>| control_run(before, events, now, after, reports)
}

/// The reactor event loop with its state. It owns every registered resource,
/// the I/O manager that watches them, the timers, the error sink and the
/// receiving ends of the control and shutdown channels.
#[verifier::reject_recursive_types(R)]
pub struct Runtime<R: Resource, IO: IoManager<R>, B: Broker<R>> {
    resources: HashMap<R::Id, R>,
    io: IO,
    broker: B,
    control_recv: crossbeam_channel::Receiver<ControlEvent<R>>,
    control_send: crossbeam_channel::Sender<ControlEvent<R>>,
    shutdown: crossbeam_channel::Receiver<()>,
    timeouts: TimeoutManager<u64>,
}

impl<R: Resource, IO: IoManager<R>, B: Broker<R>> Runtime<R, IO, B> {
    /// The resources, by id.
    pub closed spec fn registry(&self) -> Map<R::Id, R> {
        self.resources@
    }

    /// The ids whose handles the I/O manager watches.
    pub closed spec fn monitored(&self) -> Set<R::Id> {
        self.io.monitored()
    }

    /// The pending timers as (deadline, token), earliest first.
    pub closed spec fn timers(&self) -> Seq<(u64, u64)> {
        self.timeouts@
    }

    /// The errors the broker has received.
    pub closed spec fn errors(&self) -> Seq<R::Error> {
        self.broker.errors()
    }

    /// The timer tokens the broker has received.
    pub closed spec fn fired(&self) -> Seq<u64> {
        self.broker.timers()
    }

    /// The I/O manager, the broker and the channel ends the runtime was made of.
    pub closed spec fn parts(&self) -> (
        IO,
        B,
        crossbeam_channel::Receiver<ControlEvent<R>>,
        crossbeam_channel::Sender<ControlEvent<R>>,
        crossbeam_channel::Receiver<()>,
    ) {
        (self.io, self.broker, self.control_recv, self.control_send, self.shutdown)
    }

    /// Ids hash as their equality says, timers are in deadline order, and each
    /// resource is stored under its own id.
    pub closed spec fn wf(&self) -> bool {
        &&& vstd::std_specs::hash::obeys_key_model::<R::Id>()
        &&& self.timeouts.wf()
        &&& forall|k: R::Id| #[trigger]
            self.resources@.contains_key(k) ==> self.resources@[k].spec_id() == k
    }

    /// A runtime with no resources and no timers.
    pub fn new(
        io: IO,
        control_recv: crossbeam_channel::Receiver<ControlEvent<R>>,
        control_send: crossbeam_channel::Sender<ControlEvent<R>>,
        shutdown: crossbeam_channel::Receiver<()>,
        broker: B,
    ) -> (r: Self)
        requires
            vstd::std_specs::hash::obeys_key_model::<R::Id>(),
        ensures
            r.wf(),
            r.registry() == Map::<R::Id, R>::empty(),
            r.monitored() == io.monitored(),
            r.timers() == Seq::<(u64, u64)>::empty(),
            r.parts() == (io, broker, control_recv, control_send, shutdown),
    {
        Runtime {
            resources: HashMap::new(),
            io,
            broker,
            control_recv,
            control_send,
            shutdown,
            timeouts: TimeoutManager::new(),
        }
    }

    /// Whether a resource is stored under `id`.
    pub fn has_resource(&self, id: &R::Id) -> (r: bool)
        requires
            self.wf(),
        ensures
            r == self.registry().contains_key(*id),
    {
        self.resources.contains_key(id)
    }

    /// Number of registered resources.
    pub fn resource_count(&self) -> (r: usize)
        requires
            self.wf(),
        ensures
            r == self.registry().len(),
    {
        self.resources.len()
    }

    /// Routes the result of a call on `resource`: an error is offered to the
    /// resource's own recovery, and what that passes on goes to the broker.
    pub fn settle(broker: &mut B, resource: &mut R, result: Result<(), R::Error>) -> (h: Handling)
        ensures
            final(resource).spec_id() == old(resource).spec_id(),
            final(resource).seen() == old(resource).seen(),
            final(resource).commands() == old(resource).commands(),
            final(resource).raised() == old(resource).raised(),
            result is Ok <==> h is Done,
            result is Ok ==> final(resource).offered() == old(resource).offered()
                && final(broker).errors() == old(broker).errors(),
            result matches Err(e) ==> final(resource).offered() == old(resource).offered().push(e),
            h is Recovered ==> final(broker).errors() == old(broker).errors(),
            h is Escalated ==> one_more(old(broker).errors(), final(broker).errors()),
            final(broker).timers() == old(broker).timers(),
    {
        match result {
            Ok(()) => Handling::Done,
            Err(err) => match resource.handle_err(err) {
                Ok(()) => Handling::Recovered,
                Err(e) => {
                    broker.handle_err(e);
                    Handling::Escalated
                },
            },
        }
    }

    /// The waits the I/O manager was asked for: the timeout handed over and
    /// whether the wait succeeded.
    pub closed spec fn waits(&self) -> Seq<(Option<u64>, bool)> {
        self.io.waits()
    }

    /// Waits for readiness until the earliest timer is due. Returns whether
    /// the wait timed out, or nothing when polling failed, in which case the
    /// broker received the error.
    pub fn poll(&mut self, now: u64) -> (r: Option<bool>)
        requires
            old(self).wf(),
        ensures
            final(self).wf(),
            final(self).waits() == old(self).waits().push(
                (crate::timeout::remaining(old(self).timers(), now), r is Some),
            ),
            final(self).registry() == old(self).registry(),
            final(self).monitored() == old(self).monitored(),
            final(self).timers() == old(self).timers(),
            r is Some ==> final(self).errors() == old(self).errors(),
            r is None ==> one_more(old(self).errors(), final(self).errors()),
            final(self).fired() == old(self).fired(),
    {
        let timeout = self.timeouts.next(now);
        match self.io.io_events(timeout) {
            Ok(timed_out) => Some(timed_out),
            Err(e) => {
                self.broker.handle_err(e);
                None
            },
        }
    }

    /// The next source that the I/O manager reports ready, if any is left.
    pub fn next_ready(&mut self) -> (r: Option<IoSrc<R::Id>>)
        requires
            old(self).wf(),
        ensures
            final(self).wf(),
            final(self).registry() == old(self).registry(),
            final(self).timers() == old(self).timers(),
            final(self).errors() == old(self).errors(),
            final(self).fired() == old(self).fired(),
    {
        self.io.next()
    }

    /// Delivers one readiness event to the resource it names, whose error, if
    /// any, goes through its own recovery, then to the broker. Returns
    /// nothing, and changes nothing, when no resource is stored under the id.
    pub fn dispatch_io(&mut self, src: IoSrc<R::Id>) -> (r: Option<Handling>)
        requires
            old(self).wf(),
        ensures
            final(self).wf(),
            r is Some <==> old(self).registry().contains_key(src.source),
            touches_only(old(self).registry(), final(self).registry(), src.source),
            r is None ==> final(self).errors() == old(self).errors(),
            r matches Some(h) ==> {
                let before = old(self).registry()[src.source];
                let after = final(self).registry()[src.source];
                &&& after.seen() == before.seen().push(src.io)
                &&& after.commands() == before.commands()
                &&& routed(before, after, old(self).errors(), final(self).errors(), h)
            },
            final(self).monitored() == old(self).monitored(),
            final(self).timers() == old(self).timers(),
            final(self).fired() == old(self).fired(),
    {
        let ghost before = self.resources@;
        let id = src.source;
        match self.resources.remove(&id) {
            None => {
                assert(self.resources@ =~= before);
                None
            },
            Some(mut resource) => {
                let result = resource.io_ready(src.io);
                let h = Self::settle(&mut self.broker, &mut resource, result);
                self.resources.insert(id, resource);
                proof {
                    assert(self.resources@.dom() =~= before.dom());
                }
                Some(h)
            },
        }
    }

    /// Reports the token of every timer due at `now` to the broker, earliest
    /// first, and forgets those timers.
    pub fn fire_timers(&mut self, now: u64)
        requires
            old(self).wf(),
        ensures
            final(self).wf(),
            final(self).timers() == old(self).timers().skip(
                crate::timeout::due_count(old(self).timers(), now) as int,
            ),
            final(self).fired() == old(self).fired() + crate::timeout::tokens_of(
                old(self).timers().take(crate::timeout::due_count(old(self).timers(), now) as int),
            ),
            final(self).errors() == old(self).errors(),
            final(self).registry() == old(self).registry(),
            final(self).monitored() == old(self).monitored(),
            forall|i: int| 0 <= i < final(self).timers().len() ==> now < #[trigger] final(self).timers()[i].0,
    {
        proof {
            crate::timeout::lemma_due_count_splits(self.timeouts@, now);
        }
        let fired = self.timeouts.expired(now);
        let mut i: usize = 0;
        while i < fired.len()
            invariant
                self.wf(),
                i <= fired@.len(),
                self.resources@ == old(self).resources@,
                self.io == old(self).io,
                self.timeouts@ == old(self).timeouts@.skip(
                    crate::timeout::due_count(old(self).timeouts@, now) as int,
                ),
                self.broker.timers() == old(self).broker.timers() + fired@.take(i as int),
                self.broker.errors() == old(self).broker.errors(),
            decreases fired.len() - i,
        {
            self.broker.handle_timer(fired[i]);
            proof {
                assert(fired@.take(i + 1) == fired@.take(i as int).push(fired@[i as int]));
            }
            i = i + 1;
        }
        proof {
            assert(fired@.take(i as int) == fired@);
        }
    }

    /// Stores a freshly built resource and has its handle watched. A resource
    /// that could not be built has its error sent to the broker; one whose
    /// handle the I/O manager refuses has the error routed through its own
    /// recovery and is dropped, leaving the registry as it was.
    pub fn install(&mut self, built: Result<R, R::Error>) -> (r: Applied<R::Id>)
        requires
            old(self).wf(),
        ensures
            final(self).wf(),
            built is Err <==> r is Refused,
            built matches Err(e) ==> {
                &&& final(self).errors() == old(self).errors().push(e)
                &&& final(self).registry() == old(self).registry()
                &&& final(self).monitored() == old(self).monitored()
            },
            built matches Ok(res) ==> {
                ||| r matches Applied::Connected { id } && id == res.spec_id()
                    && final(self).registry() == old(self).registry().insert(id, res)
                    && final(self).monitored() == old(self).monitored().insert(id)
                    && final(self).errors() == old(self).errors()
                ||| r matches Applied::Unwatched { id, handling } && id == res.spec_id()
                    && !(handling is Done)
                    && final(self).registry() == old(self).registry()
                    && final(self).monitored() == old(self).monitored()
                    && (handling is Recovered ==> final(self).errors() == old(self).errors())
                    && (handling is Escalated ==> one_more(old(self).errors(), final(self).errors()))
            },
            final(self).timers() == old(self).timers(),
            final(self).fired() == old(self).fired(),
    {
        match built {
            Err(err) => {
                self.broker.handle_err(err);
                Applied::Refused
            },
            Ok(mut resource) => {
                let id = resource.id();
                match self.io.register_resource(&resource) {
                    Ok(()) => {
                        // one copy of the id keys the map, the other is reported
                        let key = resource.id();
                        self.resources.insert(key, resource);
                        Applied::Connected { id }
                    },
                    Err(e) => {
                        let handling = Self::settle(&mut self.broker, &mut resource, Err(e));
                        Applied::Unwatched { id, handling }
                    },
                }
            },
        }
    }


    /// Applies one control event.
    pub fn handle_control(&mut self, event: ControlEvent<R>, now: u64) -> (r: Applied<R::Id>)
        requires
            old(self).wf(),
        ensures
            final(self).wf(),
            control_step(*old(self), event, now, *final(self), r),
    {
        match event {
            ControlEvent::Connect(context) => {
                let controller = Controller::new(self.control_send.clone());
                let built = R::with(context, controller);
                self.install(built)
            },
            ControlEvent::Disconnect(id) => {
                let released = match self.io.unregister_resource(&id) {
                    Ok(()) => true,
                    Err(e) => {
                        self.broker.handle_err(e);
                        false
                    },
                };
                self.resources.remove(&id);
                Applied::Disconnected { id, released }
            },
            ControlEvent::SetTimer(after, token) => {
                let deadline = now.saturating_add(after);
                self.timeouts.register(token, deadline);
                Applied::TimerSet { deadline }
            },
            ControlEvent::Send(id, data) => {
                let ghost before = self.resources@;
                match self.resources.remove(&id) {
                    None => {
                        assert(self.resources@ =~= before);
                        Applied::Dropped
                    },
                    Some(mut resource) => {
                        let result = resource.handle_cmd(data);
                        let handling = Self::settle(&mut self.broker, &mut resource, result);
                        let key = resource.id();
                        self.resources.insert(key, resource);
                        assert(self.resources@.dom() =~= before.dom());
                        Applied::Delivered { id, handling }
                    },
                }
            },
        }
    }

    /// Applies one polled control message: an event is applied and its report
    /// returned, an empty channel changes nothing, a closed one is reported.
    pub fn apply_polled(&mut self, polled: Polled<ControlEvent<R>>, now: u64) -> (r: Result<
        Option<Applied<R::Id>>,
        ControlLost,
    >)
        requires
            old(self).wf(),
        ensures
            final(self).wf(),
            polled matches Polled::Item(event) ==> (r matches Ok(Some(a)) && control_step(
                *old(self),
                event,
                now,
                *final(self),
                a,
            )),
            (polled is Empty) <==> (r matches Ok(None)),
            (polled is Closed) <==> r is Err,
            !(polled is Item) ==> *final(self) == *old(self),
    {
        match polled {
            Polled::Item(event) => Ok(Some(self.handle_control(event, now))),
            Polled::Empty => Ok(None),
            Polled::Closed => Err(ControlLost),
        }
    }

    /// Applies, in the order received and once each, the control events
    /// waiting at the start of the call, without blocking; events queued
    /// meanwhile wait for the next call. Returns the reports in that order.
    pub fn process_control(&mut self, now: u64) -> (r: Result<Vec<Applied<R::Id>>, ControlLost>)
        requires
            old(self).wf(),
        ensures
            final(self).wf(),
            r matches Ok(v) ==> control_reachable(*old(self), now, *final(self), v@),
            r is Err ==> exists|reports: Seq<Applied<R::Id>>|
                control_reachable(*old(self), now, *final(self), reports),
    {
        let pending = waiting(&self.control_recv);
        let mut reports: Vec<Applied<R::Id>> = Vec::new();
        let ghost mut events: Seq<ControlEvent<R>> = Seq::empty();
        let ghost mut states: Seq<Self> = seq![*self];
        let mut k: usize = 0;
        while k < pending
            invariant
                self.wf(),
                states.len() == events.len() + 1,
                reports@.len() == events.len(),
                states[0] == *old(self),
                states.last() == *self,
                forall|i: int|
                    0 <= i < events.len() ==> control_step(
                        states[i],
                        #[trigger] events[i],
                        now,
                        states[i + 1],
                        reports@[i],
                    ),
            decreases pending - k,
        {
            let polled = take(&self.control_recv);
            let ghost p = polled;
            let ghost pre = *self;
            match self.apply_polled(polled, now) {
                Ok(Some(a)) => {
                    let ghost ga = a;
                    reports.push(a);
                    proof {
                        let ev = p->Item_0;
                        assert(control_step(pre, ev, now, *self, ga));
                        let old_events = events;
                        let old_states = states;
                        events = events.push(ev);
                        states = states.push(*self);
                        assert forall|i: int| 0 <= i < events.len() implies control_step(
                            states[i],
                            #[trigger] events[i],
                            now,
                            states[i + 1],
                            reports@[i],
                        ) by {
                            if i < old_events.len() {
                                assert(events[i] == old_events[i]);
                                assert(states[i] == old_states[i]);
                                assert(states[i + 1] == old_states[i + 1]);
                            }
                        }
                    }
                },
                Ok(None) => {
                    proof {
                        assert(control_run(*old(self), events, now, *self, reports@));
                        assert(control_reachable(*old(self), now, *self, reports@));
                    }
                    return Ok(reports);
                },
                Err(lost) => {
                    proof {
                        assert(control_run(*old(self), events, now, *self, reports@));
                        assert(control_reachable(*old(self), now, *self, reports@));
                    }
                    return Err(lost);
                },
            }
            k = k + 1;
        }
        proof {
            assert(control_run(*old(self), events, now, *self, reports@));
            assert(control_reachable(*old(self), now, *self, reports@));
        }
        Ok(reports)
    }

    /// Stops watching every resource and drops them all; errors of the I/O
    /// manager go to the broker, one for each handle that was not released.
    /// Returns the number of such failures.
    pub fn release_all(&mut self) -> (failed: usize)
        requires
            old(self).wf(),
        ensures
            final(self).wf(),
            final(self).registry() == Map::<R::Id, R>::empty(),
            final(self).monitored().subset_of(old(self).monitored()),
            old(self).monitored().difference(old(self).registry().dom()).subset_of(
                final(self).monitored(),
            ),
            old(self).registry().dom() == Set::<R::Id>::empty() ==> failed == 0,
            failed == 0 ==> final(self).monitored() == old(self).monitored().difference(
                old(self).registry().dom(),
            ),
            final(self).errors().len() == old(self).errors().len() + failed,
            forall|i: int| 0 <= i < old(self).errors().len() ==> #[trigger] final(self).errors()[i]
                == old(self).errors()[i],
            final(self).timers() == old(self).timers(),
            final(self).fired() == old(self).fired(),
    {
        if self.resources.is_empty() {
            proof {
                assert(self.resources@ =~= Map::<R::Id, R>::empty());
                assert(old(self).monitored().difference(old(self).registry().dom()) =~= old(self).monitored());
            }
            return 0;
        }
        let n: usize = self.resources.len();
        let mut failed: usize = 0;
        let ghost mut covered: Set<R::Id> = Set::empty();
        for id in it: self.resources.keys()
            invariant
                self.io.monitored().subset_of(old(self).io.monitored()),
                old(self).io.monitored().difference(old(self).resources@.dom()).subset_of(
                    self.io.monitored(),
                ),
                self.timeouts == old(self).timeouts,
                self.resources == old(self).resources,
                self.broker.timers() == old(self).broker.timers(),
                self.broker.errors().len() == old(self).broker.errors().len() + failed,
                forall|i: int| 0 <= i < old(self).broker.errors().len() ==> #[trigger] self.broker.errors()[i]
                    == old(self).broker.errors()[i],
                failed <= it.index(),
                it.seq().len() == n,
                it.seq().unref().to_set() == old(self).resources@.dom(),
                0 <= it.index() <= it.seq().len(),
                covered == it.seq().take(it.index()).unref().to_set(),
                it.index() == it.seq().len() ==> covered == old(self).resources@.dom(),
                failed == 0 ==> self.io.monitored() == old(self).io.monitored().difference(covered),
        {
            proof {
                let done = it.seq().take(it.index()).unref();
                let next = it.seq().take(it.index() + 1).unref();
                assert(next =~= done.push(*id));
                done.lemma_push_to_set_commute(*id);
                assert(it.seq().take(it.seq().len() as int) =~= it.seq());
                assert(it.seq().unref()[it.index()] == *id);
                assert(old(self).resources@.dom().contains(*id));
            }
            proof {
                covered = covered.insert(*id);
            }
            match self.io.unregister_resource(id) {
                Ok(()) => {
                    proof {
                        if failed == 0 {
                            assert(self.io.monitored() =~= old(self).io.monitored().difference(covered));
                        }
                    }
                },
                Err(e) => {
                    self.broker.handle_err(e);
                    failed = failed + 1;
                },
            }
        }
        self.resources.clear();
        proof {
            assert(self.resources@ =~= Map::<R::Id, R>::empty());
        }
        failed
    }

    /// What the loop does with one polled shutdown message: a request releases
    /// every resource and stops; an empty channel changes nothing; a closed
    /// one is reported.
    pub fn apply_shutdown(&mut self, polled: Polled<()>) -> (r: Signal)
        requires
            old(self).wf(),
        ensures
            final(self).wf(),
            (polled is Item) <==> (r is Stop),
            (polled is Empty) <==> (r is Continue),
            (polled is Closed) <==> (r is Orphaned),
            !(r is Stop) ==> *final(self) == *old(self),
            r is Stop ==> {
                &&& final(self).registry() == Map::<R::Id, R>::empty()
                &&& final(self).monitored().subset_of(old(self).monitored())
                &&& old(self).monitored().difference(old(self).registry().dom()).subset_of(
                    final(self).monitored(),
                )
                &&& final(self).errors().len() == old(self).errors().len() ==> final(self).monitored()
                    == old(self).monitored().difference(old(self).registry().dom())
            },
            final(self).timers() == old(self).timers(),
            final(self).fired() == old(self).fired(),
    {
        match polled {
            Polled::Empty => Signal::Continue,
            Polled::Item(()) => {
                let _ = self.release_all();
                Signal::Stop
            },
            Polled::Closed => Signal::Orphaned,
        }
    }

    /// Checks, without blocking, whether shutdown was asked for. When it was,
    /// the control events already queued are applied first, then the runtime
    /// acts on the request as [`Runtime::apply_shutdown`] says.
    pub fn process_shutdown(&mut self, now: u64) -> (r: Signal)
        requires
            old(self).wf(),
        ensures
            final(self).wf(),
            !(r is Stop) ==> *final(self) == *old(self),
            r is Stop ==> final(self).registry() == Map::<R::Id, R>::empty(),
    {
        let polled = take(&self.shutdown);
        match polled {
            Polled::Item(()) => {
                let _ = self.process_control(now);
            },
            _ => {},
        }
        self.apply_shutdown(polled)
    }
}

/// A runtime that keeps its invariant holds its timers in deadline order.
pub proof fn lemma_timers_sorted<R: Resource, IO: IoManager<R>, B: Broker<R>>(
    rt: Runtime<R, IO, B>,
)
    requires
        rt.wf(),
    ensures
        crate::timeout::deadlines_sorted(rt.timers()),
{
}

/// A connect whose handle the I/O manager took leaves the id both in the
/// registry and among the watched ids; a disconnect of that id then leaves it
/// in neither, as far as the manager released the handle.
pub proof fn lemma_connect_then_disconnect<R: Resource, IO: IoManager<R>, B: Broker<R>>(
    before: Runtime<R, IO, B>,
    connected: Runtime<R, IO, B>,
    after: Runtime<R, IO, B>,
    id: R::Id,
    released: bool,
)
    requires
        connect_effect(
            before.registry(),
            before.monitored(),
            connected.registry(),
            connected.monitored(),
            id,
        ),
        disconnect_effect(
            connected.registry(),
            connected.monitored(),
            after.registry(),
            after.monitored(),
            id,
            released,
        ),
    ensures
        connected.registry().contains_key(id),
        connected.monitored().contains(id),
        !after.registry().contains_key(id),
        released ==> !after.monitored().contains(id),
{
}

/// Connecting a resource under an id that is not yet in use and then
/// disconnecting it, with its handle released, gives back the registry and the
/// watched ids as they were.
pub proof fn lemma_connect_disconnect_round_trip<R: Resource, IO: IoManager<R>, B: Broker<R>>(
    before: Runtime<R, IO, B>,
    connected: Runtime<R, IO, B>,
    after: Runtime<R, IO, B>,
    id: R::Id,
)
    requires
        !before.registry().contains_key(id),
        !before.monitored().contains(id),
        connect_effect(
            before.registry(),
            before.monitored(),
            connected.registry(),
            connected.monitored(),
            id,
        ),
        disconnect_effect(
            connected.registry(),
            connected.monitored(),
            after.registry(),
            after.monitored(),
            id,
            true,
        ),
    ensures
        after.registry() == before.registry(),
        after.monitored() == before.monitored(),
{
    assert(after.registry() =~= before.registry());
    assert(after.monitored() =~= before.monitored());
}

} // verus!
