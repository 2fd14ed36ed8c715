//! The adapter that turns byte-stream readiness into connection events: a
//! listener accepts, a stream reads, flushes and reports its disconnection.

use std::sync::Arc;
use vstd::prelude::*;

use crate::event::IoEv;

verus! {

#[verifier::external_type_specification]
#[verifier::external_body]
pub struct ExIoError(std::io::Error);

/// Seconds that a socket waits at most when reading.
pub const READ_TIMEOUT_SECS: u64 = 6;

/// Seconds that a socket waits at most when writing.
pub const WRITE_TIMEOUT_SECS: u64 = 3;

/// Size of the read buffer of a stream.
pub const READ_BUFFER_SIZE: usize = 65535;

/// Disconnect reason originating either from the network interface or from
/// the protocol state machine.
pub enum DisconnectReason {
    /// Error while dialing the remote. This error occurs before a connection is
    /// even established. Errors of this kind are usually not transient.
    DialError(Arc<std::io::Error>),
    /// Error with an underlying established connection. Sometimes, reconnecting
    /// after such an error is possible.
    ConnectionError(Arc<std::io::Error>),
    /// Peer was disconnected due to a request from the protocol logic.
    OnDemand,
}

/// A reason that stands for a disconnection asked for by the protocol logic.
pub trait OnDemand: Sized {
    /// Whether the value is the on-demand reason.
    spec fn is_on_demand(&self) -> bool;

    /// The on-demand reason.
    fn on_demand() -> (r: Self)
        ensures
            r.is_on_demand(),
    ;
}

impl OnDemand for DisconnectReason {
    open spec fn is_on_demand(&self) -> bool {
        self is OnDemand
    }

    fn on_demand() -> (r: Self) {
        DisconnectReason::OnDemand
    }
}

impl DisconnectReason {
    /// Whether reconnecting after this disconnection may make sense: only an
    /// established connection that failed may be tried again.
    pub fn is_transient(&self) -> (r: bool)
        ensures
            r == (self is ConnectionError),
    {
        match self {
            DisconnectReason::ConnectionError(_) => true,
            _ => false,
        }
    }
}

/// Which side opened a connection.
#[derive(Copy, Clone, PartialEq, Eq, Hash, Debug, Structural)]
pub enum ConnDirection {
    Inbound,
    Outbound,
}

/// Events produced by the adapter for the protocol above it.
pub enum InputEvent<A> {
    /// A connection was established.
    Connected { remote_addr: A, local_addr: Option<A>, direction: ConnDirection },
    /// Bytes arrived from the remote.
    Received(A, Vec<u8>),
    /// The connection is gone.
    Disconnected(A, DisconnectReason),
}

/// What kind of socket an endpoint is.
#[derive(Copy, Clone, PartialEq, Eq, Hash, Debug, Structural)]
pub enum SocketRole {
    Listener,
    Stream,
}

/// The work that a readiness event asks of an endpoint.
#[derive(Copy, Clone, PartialEq, Eq, Hash, Debug, Structural)]
pub struct IoPlan {
    /// Accept one pending connection.
    pub accept: bool,
    /// Read what is available.
    pub read: bool,
    /// Flush queued output.
    pub flush: bool,
}

/// A listener accepts on writable readiness and ignores readable readiness; a
/// stream reads on readable readiness and flushes on writable readiness.
pub fn plan(role: SocketRole, ev: IoEv) -> (r: IoPlan)
    ensures
        r.accept == (role == SocketRole::Listener && ev.is_writable),
        r.read == (role == SocketRole::Stream && ev.is_readable),
        r.flush == (role == SocketRole::Stream && ev.is_writable),
{
    match role {
        SocketRole::Listener => IoPlan { accept: ev.is_writable, read: false, flush: false },
        SocketRole::Stream => IoPlan { accept: false, read: ev.is_readable, flush: ev.is_writable },
    }
}

/// How a read from a stream ended.
#[derive(Copy, Clone, PartialEq, Eq, Hash, Debug, Structural)]
pub enum ReadOutcome {
    /// This many bytes were read.
    Data(usize),
    /// The read would have blocked.
    WouldBlock,
    /// The read failed for another reason.
    Failed,
}

/// What a stream does after a read.
#[derive(Copy, Clone, PartialEq, Eq, Hash, Debug, Structural)]
pub enum ReadStep {
    /// Report the first this many bytes of the buffer as received.
    Receive(usize),
    /// Shut the socket down and report a reset connection.
    Close,
    /// Hand the would-block error back to the caller; no event.
    Retry,
}

/// A non-empty read is received data; an empty read, or any failure other
/// than would-block, ends the stream.
pub fn after_read(outcome: ReadOutcome) -> (r: ReadStep)
    ensures
        r == match outcome {
            ReadOutcome::Data(n) => if n == 0 {
                ReadStep::Close
            } else {
                ReadStep::Receive(n)
            },
            ReadOutcome::WouldBlock => ReadStep::Retry,
            ReadOutcome::Failed => ReadStep::Close,
        },
{
    match outcome {
        ReadOutcome::Data(n) => {
            if n == 0 {
                ReadStep::Close
            } else {
                ReadStep::Receive(n)
            }
        },
        ReadOutcome::WouldBlock => ReadStep::Retry,
        ReadOutcome::Failed => ReadStep::Close,
    }
}

/// The bytes that a read of `n` bytes into `buffer` delivered.
pub fn received_bytes(buffer: &[u8], n: usize) -> (r: Vec<u8>)
    requires
        n <= buffer@.len(),
    ensures
        r@ == buffer@.take(n as int),
{
    let mut out: Vec<u8> = Vec::new();
    let mut i: usize = 0;
    while i < n
        invariant
            n <= buffer@.len(),
            i <= n,
            out@ == buffer@.take(i as int),
        decreases n - i,
    {
        out.push(buffer[i]);
        proof {
            assert(buffer@.take(i + 1) == buffer@.take(i as int).push(buffer@[i as int]));
        }
        i = i + 1;
    }
    out
}

/// The event a stream reports after a read that ended it.
pub fn closed_event<A>(addr: A, error: std::io::Error) -> (r: InputEvent<A>)
    ensures
        r matches InputEvent::Disconnected(a, DisconnectReason::ConnectionError(e)) && a == addr
            && *e == error,
{
    InputEvent::Disconnected(addr, DisconnectReason::ConnectionError(Arc::new(error)))
}

/// The event a stream reports after a read of `n` bytes into `buffer`.
pub fn received_event<A>(addr: A, buffer: &[u8], n: usize) -> (r: InputEvent<A>)
    requires
        n <= buffer@.len(),
    ensures
        r matches InputEvent::Received(a, bytes) && a == addr && bytes@ == buffer@.take(n as int),
{
    InputEvent::Received(addr, received_bytes(buffer, n))
}

/// How an attempt to start a non-blocking connect ended.
#[derive(Copy, Clone, PartialEq, Eq, Hash, Debug, Structural)]
pub enum DialOutcome {
    /// The connection was established at once.
    Connected,
    /// The connection is being established in the background.
    InProgress,
    /// A connection attempt on the socket is already under way.
    Already,
    /// The call would have blocked.
    WouldBlock,
    /// Any other failure.
    Failed,
}

/// What dialing does next.
#[derive(Copy, Clone, PartialEq, Eq, Hash, Debug, Structural)]
pub enum DialStep {
    /// Keep the socket as a stream: it is connected or will be.
    Proceed,
    /// Fail with an "already exists" error.
    AlreadyExists,
    /// Fail with the error that the connect returned.
    Fail,
}

/// A connect that succeeded, is in progress or would block goes on; a second
/// attempt on the same socket is reported as already existing; anything else
/// fails.
pub fn after_dial(outcome: DialOutcome) -> (r: DialStep)
    ensures
        r == match outcome {
            DialOutcome::Connected | DialOutcome::InProgress | DialOutcome::WouldBlock => DialStep::Proceed,
            DialOutcome::Already => DialStep::AlreadyExists,
            DialOutcome::Failed => DialStep::Fail,
        },
{
    match outcome {
        DialOutcome::Connected => DialStep::Proceed,
        DialOutcome::InProgress => DialStep::Proceed,
        DialOutcome::WouldBlock => DialStep::Proceed,
        DialOutcome::Already => DialStep::AlreadyExists,
        DialOutcome::Failed => DialStep::Fail,
    }
}

/// After a flush, a stream reports nothing when it succeeded, and otherwise
/// shuts down and reports the flush error as a connection error.
pub fn after_flush<A>(addr: A, flushed: Result<(), std::io::Error>) -> (r: Option<InputEvent<A>>)
    ensures
        flushed is Ok ==> r is None,
        flushed matches Err(x) ==> (r matches Some(
            InputEvent::Disconnected(a, DisconnectReason::ConnectionError(e)),
        ) && a == addr && *e == x),
{
    match flushed {
        Ok(()) => None,
        Err(e) => Some(closed_event(addr, e)),
    }
}

} // verus!
