//! Control of a running reactor from any thread, through a channel.

use vstd::prelude::*;

use crate::error::InternalError;
use crate::resource::Resource;

verus! {

#[verifier::external_type_specification]
#[verifier::external_body]
#[verifier::reject_recursive_types(T)]
pub struct ExSender<T>(crossbeam_channel::Sender<T>);

#[verifier::external_type_specification]
#[verifier::external_body]
#[verifier::reject_recursive_types(T)]
pub struct ExReceiver<T>(crossbeam_channel::Receiver<T>);

/// Relies on crossbeam_channel's `Clone` for `Sender`: a new handle on the
/// same channel.
pub assume_specification<T>[ <crossbeam_channel::Sender<T> as Clone>::clone ](
    s: &crossbeam_channel::Sender<T>,
) -> crossbeam_channel::Sender<T>;

/// What a non-blocking receive found.
pub enum Polled<T> {
    /// A message was taken off the channel.
    Item(T),
    /// No message is waiting.
    Empty,
    /// No message is waiting and every sender is gone.
    Closed,
}

/// Relies on crossbeam_channel::Sender::send: on a disconnected channel the
/// message comes back inside the error.
#[verifier::external_body]
pub(crate) fn post<T>(s: &crossbeam_channel::Sender<T>, msg: T) -> (r: Result<(), T>)
    ensures
        r matches Err(m) ==> m == msg,
{
    s.send(msg).map_err(|e| e.0)
}

/// Relies on crossbeam_channel::Receiver::try_recv: takes one message without
/// blocking, or tells an empty channel from a disconnected one.
#[verifier::external_body]
pub(crate) fn take<T>(r: &crossbeam_channel::Receiver<T>) -> Polled<T> {
    match r.try_recv() {
        Ok(m) => Polled::Item(m),
        Err(crossbeam_channel::TryRecvError::Empty) => Polled::Empty,
        Err(crossbeam_channel::TryRecvError::Disconnected) => Polled::Closed,
    }
}

/// Relies on crossbeam_channel::Receiver::len: the number of messages
/// waiting in the channel.
#[verifier::external_body]
pub(crate) fn waiting<T>(r: &crossbeam_channel::Receiver<T>) -> usize {
    r.len()
}

/// Events sent by controllers to the runtime.
pub enum ControlEvent<R: Resource> {
    /// Request reactor to connect to the resource with some context
    Connect(R::Context),
    /// Request reactor to disconnect from a resource
    Disconnect(R::Id),
    /// Ask reactor to report `token` once the given number of milliseconds
    /// has passed
    SetTimer(u64, u64),
    /// Request reactor to send the data to the resource
    Send(R::Id, R::Cmd),
}

/// The outcome of one post: on success `after` is `before` with `event`
/// appended; on failure nothing was queued and the error says the channel is
/// broken.
pub open spec fn posted_one<R: Resource>(
    before: Seq<ControlEvent<R>>,
    after: Seq<ControlEvent<R>>,
    event: ControlEvent<R>,
    r: Result<(), InternalError>,
) -> bool {
    &&& r is Ok ==> after == before.push(event)
    &&& r is Err ==> after == before && r matches Err(InternalError::ControlChannelBroken)
}

/// API for controlling the reactor, from the reactor facade itself or through
/// any number of [`Controller`]s. Each call queues exactly one event and
/// returns once it is queued; it fails only when the runtime is gone.
pub trait ReactorApi {
    /// Resource type managed by the reactor.
    type Resource: Resource;

    /// The events this handle has queued so far, oldest first.
    closed spec fn posted(&self) -> Seq<ControlEvent<Self::Resource>> {
        vstd::pervasive::arbitrary()
    }

    /// Connects new resource and adds it to the manager.
    fn connect(&mut self, addr: <Self::Resource as Resource>::Context) -> (r: Result<
        (),
        InternalError,
    >)
        ensures
            posted_one(old(self).posted(), final(self).posted(), ControlEvent::Connect(addr), r),
    ;

    /// Disconnects from a resource.
    fn disconnect(&mut self, id: <Self::Resource as Resource>::Id) -> (r: Result<(), InternalError>)
        ensures
            posted_one(old(self).posted(), final(self).posted(), ControlEvent::Disconnect(id), r),
    ;

    /// Sets a one-time timer that reports `token` after `after_ms` milliseconds.
    fn set_timer(&mut self, after_ms: u64, token: u64) -> (r: Result<(), InternalError>)
        ensures
            posted_one(
                old(self).posted(),
                final(self).posted(),
                ControlEvent::SetTimer(after_ms, token),
                r,
            ),
    ;

    /// Sends a command to the resource.
    fn send(
        &mut self,
        id: <Self::Resource as Resource>::Id,
        data: <Self::Resource as Resource>::Cmd,
    ) -> (r: Result<(), InternalError>)
        ensures
            posted_one(old(self).posted(), final(self).posted(), ControlEvent::Send(id, data), r),
    ;
}

/// Instance of reactor controller which may be transferred between threads.
#[verifier::reject_recursive_types(R)]
pub struct Controller<R: Resource> {
    control: crossbeam_channel::Sender<ControlEvent<R>>,
    log: Ghost<Seq<ControlEvent<R>>>,
}

impl<R: Resource> Clone for Controller<R> {
    fn clone(&self) -> (r: Self) {
        Controller { control: self.control.clone(), log: Ghost(Seq::empty()) }
    }
}

impl<R: Resource> Controller<R> {
    /// A controller that posts on the given control channel and has posted
    /// nothing yet.
    pub fn new(control: crossbeam_channel::Sender<ControlEvent<R>>) -> (r: Self)
        ensures
            r.posted() == Seq::<ControlEvent<R>>::empty(),
    {
        Controller { control, log: Ghost(Seq::empty()) }
    }

    /// Queues one event; a closed channel is reported as a broken control
    /// channel.
    pub fn post_event(&mut self, event: ControlEvent<R>) -> (r: Result<(), InternalError>)
        ensures
            posted_one(old(self).posted(), final(self).posted(), event, r),
    {
        let ghost ev = event;
        match post(&self.control, event) {
            Ok(()) => {
                self.log = Ghost(self.log@.push(ev));
                Ok(())
            },
            Err(_) => Err(InternalError::ControlChannelBroken),
        }
    }
}

impl<R: Resource> ReactorApi for Controller<R> {
    type Resource = R;

    closed spec fn posted(&self) -> Seq<ControlEvent<R>> {
        self.log@
    }

    fn connect(&mut self, addr: R::Context) -> (r: Result<(), InternalError>) {
        self.post_event(ControlEvent::Connect(addr))
    }

    fn disconnect(&mut self, id: R::Id) -> (r: Result<(), InternalError>) {
        self.post_event(ControlEvent::Disconnect(id))
    }

    fn set_timer(&mut self, after_ms: u64, token: u64) -> (r: Result<(), InternalError>) {
        self.post_event(ControlEvent::SetTimer(after_ms, token))
    }

    fn send(&mut self, id: R::Id, data: R::Cmd) -> (r: Result<(), InternalError>) {
        self.post_event(ControlEvent::Send(id, data))
    }
}

} // verus!
