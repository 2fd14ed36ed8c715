//! A non-blocking I/O reactor: many endpoints multiplexed onto one event loop,
//! with readiness and external commands dispatched to resource state machines.

mod control;
mod error;
mod event;
mod resource;
mod runtime;
mod session;
mod timeout;

pub use control::{ControlEvent, Controller, Polled, ReactorApi};
pub use error::InternalError;
pub use event::{IoEv, IoSrc};
pub use resource::{Broker, IoManager, Resource};
pub use timeout::TimeoutManager;
pub use runtime::{Applied, ControlLost, Handling, Runtime, Signal};
pub use session::{
    after_dial, after_flush, after_read, closed_event, plan, received_bytes, received_event,
    ConnDirection, DialOutcome, DialStep, DisconnectReason, InputEvent, IoPlan, OnDemand,
    ReadOutcome, ReadStep, SocketRole, READ_BUFFER_SIZE, READ_TIMEOUT_SECS, WRITE_TIMEOUT_SECS,
};
