//! The interfaces that users of the reactor implement: resources, the
//! polling backend that watches them, and the sink for errors and timers.

use vstd::prelude::*;

use crate::control::Controller;
use crate::event::{IoEv, IoSrc};

verus! {

/// Resource is an I/O item operated by the reactor. It encompasses the
/// application-specific logic for working with I/O data and advances as a
/// state machine on I/O events and commands dispatched by the runtime. It may
/// act on the reactor through the [`Controller`] handed to it at construction.
pub trait Resource: Sized {
    type Id: Clone + Eq + Ord + std::hash::Hash + Send;
    type Context: Send;
    type Cmd: Send;
    type Error;

    /// The identity of the resource, as reported by [`Resource::id`].
    /// Implementations proved against this trait define it; others leave it
    /// unspecified.
    closed spec fn spec_id(&self) -> Self::Id {
        vstd::pervasive::arbitrary()
    }

    /// The readiness events handed to the resource so far, oldest first.
    closed spec fn seen(&self) -> Seq<IoEv> {
        vstd::pervasive::arbitrary()
    }

    /// The commands handed to the resource so far, oldest first.
    closed spec fn commands(&self) -> Seq<Self::Cmd> {
        vstd::pervasive::arbitrary()
    }

    /// The errors that `io_ready` and `handle_cmd` returned so far, oldest first.
    closed spec fn raised(&self) -> Seq<Self::Error> {
        vstd::pervasive::arbitrary()
    }

    /// The errors offered to the resource's own recovery so far, oldest first.
    closed spec fn offered(&self) -> Seq<Self::Error> {
        vstd::pervasive::arbitrary()
    }

    /// Builds the resource from its context, handing it a controller of the
    /// reactor that will own it.
    fn with(context: Self::Context, controller: Controller<Self>) -> Result<Self, Self::Error>;

    /// The identity of the resource; it never changes.
    fn id(&self) -> (r: Self::Id)
        ensures
            r == self.spec_id(),
    ;

    /// Performs input and/or output operations according to the flags given
    /// and advances the state of the resource. Errors are offered to
    /// [`Resource::handle_err`].
    fn io_ready(&mut self, io: IoEv) -> (r: Result<(), Self::Error>)
        ensures
            final(self).spec_id() == old(self).spec_id(),
            final(self).seen() == old(self).seen().push(io),
            final(self).commands() == old(self).commands(),
            final(self).offered() == old(self).offered(),
            r matches Err(e) ==> final(self).raised() == old(self).raised().push(e),
            r is Ok ==> final(self).raised() == old(self).raised(),
    ;

    /// Called whenever a command for this resource arrives through a
    /// controller. Errors are offered to [`Resource::handle_err`].
    fn handle_cmd(&mut self, cmd: Self::Cmd) -> (r: Result<(), Self::Error>)
        ensures
            final(self).spec_id() == old(self).spec_id(),
            final(self).seen() == old(self).seen(),
            final(self).commands() == old(self).commands().push(cmd),
            final(self).offered() == old(self).offered(),
            r matches Err(e) ==> final(self).raised() == old(self).raised().push(e),
            r is Ok ==> final(self).raised() == old(self).raised(),
    ;

    /// Local recovery: `Ok` swallows the error, an `Err` is passed on to the
    /// [`Broker`].
    fn handle_err(&mut self, err: Self::Error) -> (r: Result<(), Self::Error>)
        ensures
            final(self).spec_id() == old(self).spec_id(),
            final(self).seen() == old(self).seen(),
            final(self).commands() == old(self).commands(),
            final(self).offered() == old(self).offered().push(err),
            final(self).raised() == old(self).raised(),
    ;
}

/// Implements a specific way of watching many resources for readiness: it
/// keeps the map between the handles it polls and the resource ids, blocks
/// until some handle is ready, and then yields the ready sources.
pub trait IoManager<R: Resource>: Iterator<Item = IoSrc<R::Id>> + Send {
    /// The ids whose handles are being watched. Implementations proved
    /// against this trait define it; others leave it unspecified.
    closed spec fn monitored(&self) -> Set<R::Id> {
        vstd::pervasive::arbitrary()
    }

    /// Detects whether a resource under the given id is known to the manager.
    fn has_resource(&self, id: &R::Id) -> (r: bool)
        ensures
            r == self.monitored().contains(*id),
    ;

    /// Starts watching the handle of an already operating resource. Must not
    /// block or generate I/O events.
    fn register_resource(&mut self, resource: &R) -> (r: Result<(), R::Error>)
        ensures
            r is Ok ==> final(self).monitored() == old(self).monitored().insert(resource.spec_id()),
            r is Err ==> final(self).monitored() == old(self).monitored(),
    ;

    /// Stops watching a resource without disconnecting it, so that it may be
    /// registered again later. Must not block or generate I/O events.
    fn unregister_resource(&mut self, id: &R::Id) -> (r: Result<(), R::Error>)
        ensures
            r is Ok ==> final(self).monitored() == old(self).monitored().remove(*id),
            r is Err ==> final(self).monitored() == old(self).monitored(),
    ;

    /// The waits so far, oldest first: the timeout handed over and whether
    /// the wait succeeded.
    closed spec fn waits(&self) -> Seq<(Option<u64>, bool)> {
        vstd::pervasive::arbitrary()
    }

    /// Blocks until some watched handle is ready or `timeout` milliseconds
    /// have passed (forever when there is none). Returns whether it timed out.
    fn io_events(&mut self, timeout: Option<u64>) -> (r: Result<bool, R::Error>)
        ensures
            final(self).monitored() == old(self).monitored(),
            final(self).waits() == old(self).waits().push((timeout, r is Ok)),
    ;
}

/// The sink for what the runtime cannot handle locally.
pub trait Broker<R: Resource>: Send {
    /// The errors received so far, oldest first.
    closed spec fn errors(&self) -> Seq<R::Error> {
        vstd::pervasive::arbitrary()
    }

    /// The timer tokens received so far, oldest first.
    closed spec fn timers(&self) -> Seq<u64> {
        vstd::pervasive::arbitrary()
    }

    /// Receives an error that no resource recovered from.
    fn handle_err(&mut self, err: R::Error)
        ensures
            final(self).errors() == old(self).errors().push(err),
            final(self).timers() == old(self).timers(),
    ;

    /// Receives the token of a timer that has expired.
    fn handle_timer(&mut self, token: u64)
        ensures
            final(self).errors() == old(self).errors(),
            final(self).timers() == old(self).timers().push(token),
    ;
}

} // verus!
