use std::collections::BTreeSet;
use std::sync::{Arc, Mutex};

use reactor::{
    Applied, Broker, Handling, Polled, ControlEvent, Controller, InternalError, IoEv, IoManager, IoSrc,
    ReactorApi, Resource, Runtime, Signal,
};

#[derive(Default)]
struct Log {
    io_ready: Vec<u64>,
    cmds: Vec<(u64, u32)>,
    errors: Vec<String>,
    timers: Vec<u64>,
}

type Shared = Arc<Mutex<Log>>;

/// Context: id, shared log, and whether io_ready fails.
struct Dummy {
    id: u64,
    log: Shared,
    fail_io: bool,
}

impl Resource for Dummy {
    type Id = u64;
    type Context = (u64, Shared, bool);
    type Cmd = u32;
    type Error = String;

    fn with(context: Self::Context, _controller: Controller<Self>) -> Result<Self, Self::Error> {
        if context.0 == 0 {
            return Err("zero id".to_string());
        }
        Ok(Dummy { id: context.0, log: context.1, fail_io: context.2 })
    }

    fn id(&self) -> u64 {
        self.id
    }

    fn io_ready(&mut self, _io: IoEv) -> Result<(), String> {
        self.log.lock().unwrap().io_ready.push(self.id);
        if self.fail_io {
            Err(format!("io failure on {}", self.id))
        } else {
            Ok(())
        }
    }

    fn handle_cmd(&mut self, cmd: u32) -> Result<(), String> {
        self.log.lock().unwrap().cmds.push((self.id, cmd));
        Ok(())
    }

    fn handle_err(&mut self, err: String) -> Result<(), String> {
        Err(err)
    }
}

#[derive(Default)]
struct IoState {
    watched: BTreeSet<u64>,
    ready: Vec<IoSrc<u64>>,
    fail_poll: bool,
    refuse: BTreeSet<u64>,
    polls: usize,
}

struct FakeIo(Arc<Mutex<IoState>>);

impl Iterator for FakeIo {
    type Item = IoSrc<u64>;
    fn next(&mut self) -> Option<IoSrc<u64>> {
        let mut st = self.0.lock().unwrap();
        if st.ready.is_empty() {
            None
        } else {
            Some(st.ready.remove(0))
        }
    }
}

impl IoManager<Dummy> for FakeIo {
    fn has_resource(&self, id: &u64) -> bool {
        self.0.lock().unwrap().watched.contains(id)
    }

    fn register_resource(&mut self, resource: &Dummy) -> Result<(), String> {
        let mut st = self.0.lock().unwrap();
        if st.refuse.contains(&resource.id) {
            return Err(format!("cannot watch {}", resource.id));
        }
        st.watched.insert(resource.id);
        Ok(())
    }

    fn unregister_resource(&mut self, id: &u64) -> Result<(), String> {
        self.0.lock().unwrap().watched.remove(id);
        Ok(())
    }

    fn io_events(&mut self, _timeout: Option<u64>) -> Result<bool, String> {
        let mut st = self.0.lock().unwrap();
        st.polls += 1;
        if st.fail_poll {
            st.fail_poll = false;
            return Err("poll failed".to_string());
        }
        Ok(st.ready.is_empty())
    }
}

struct Sink(Shared);

impl Broker<Dummy> for Sink {
    fn handle_err(&mut self, err: String) {
        self.0.lock().unwrap().errors.push(err);
    }

    fn handle_timer(&mut self, token: u64) {
        self.0.lock().unwrap().timers.push(token);
    }
}

struct Harness {
    rt: Runtime<Dummy, FakeIo, Sink>,
    io: Arc<Mutex<IoState>>,
    log: Shared,
    controller: Controller<Dummy>,
    shutdown: crossbeam_channel::Sender<()>,
}

fn harness() -> Harness {
    let io = Arc::new(Mutex::new(IoState::default()));
    let log: Shared = Arc::new(Mutex::new(Log::default()));
    let (control_send, control_recv) = crossbeam_channel::unbounded::<ControlEvent<Dummy>>();
    let (shutdown_send, shutdown_recv) = crossbeam_channel::bounded::<()>(1);
    let controller = Controller::new(control_send.clone());
    let rt = Runtime::new(FakeIo(io.clone()), control_recv, control_send, shutdown_recv, Sink(log.clone()));
    Harness { rt, io, log, controller, shutdown: shutdown_send }
}

fn connect(h: &mut Harness, id: u64, fail_io: bool) -> Applied<u64> {
    h.rt.handle_control(ControlEvent::Connect((id, h.log.clone(), fail_io)), 0)
}

#[test]
fn connect_registers_in_both_places() {
    let mut h = harness();
    assert!(matches!(connect(&mut h, 5, false), Applied::Connected { id: 5 }));
    assert!(h.rt.has_resource(&5));
    assert!(h.io.lock().unwrap().watched.contains(&5));
    assert_eq!(h.rt.resource_count(), 1);
}

#[test]
fn disconnect_clears_both_places() {
    let mut h = harness();
    connect(&mut h, 5, false);
    let r = h.rt.handle_control(ControlEvent::Disconnect(5), 0);
    assert!(matches!(r, Applied::Disconnected { id: 5, released: true }));
    assert!(!h.rt.has_resource(&5));
    assert!(!h.io.lock().unwrap().watched.contains(&5));
    assert_eq!(h.rt.resource_count(), 0);
}

#[test]
fn connect_disconnect_round_trip_restores_state() {
    let mut h = harness();
    connect(&mut h, 1, false);
    let before: BTreeSet<u64> = h.io.lock().unwrap().watched.clone();
    connect(&mut h, 2, false);
    h.rt.handle_control(ControlEvent::Disconnect(2), 0);
    assert_eq!(h.io.lock().unwrap().watched, before);
    assert!(h.rt.has_resource(&1));
    assert!(!h.rt.has_resource(&2));
    assert_eq!(h.rt.resource_count(), 1);
}

#[test]
fn refused_context_goes_to_broker() {
    let mut h = harness();
    assert!(matches!(connect(&mut h, 0, false), Applied::Refused));
    assert_eq!(h.rt.resource_count(), 0);
    assert_eq!(h.log.lock().unwrap().errors, vec!["zero id".to_string()]);
}

#[test]
fn registration_failure_drops_the_resource() {
    let mut h = harness();
    h.io.lock().unwrap().refuse.insert(9);
    assert!(matches!(
        connect(&mut h, 9, false),
        Applied::Unwatched { id: 9, handling: Handling::Escalated }
    ));
    assert!(!h.rt.has_resource(&9));
    assert!(!h.io.lock().unwrap().watched.contains(&9));
    assert_eq!(h.log.lock().unwrap().errors, vec!["cannot watch 9".to_string()]);
}

#[test]
fn install_of_a_failed_build_reports_to_broker() {
    let mut h = harness();
    assert!(matches!(h.rt.install(Err("no context".to_string())), Applied::Refused));
    assert_eq!(h.rt.resource_count(), 0);
    assert_eq!(h.log.lock().unwrap().errors, vec!["no context".to_string()]);
}

#[test]
fn apply_polled_maps_each_outcome() {
    let mut h = harness();
    assert!(matches!(h.rt.apply_polled(Polled::Empty, 0), Ok(None)));
    assert!(matches!(h.rt.apply_polled(Polled::Closed, 0), Err(_)));
    let ev = ControlEvent::Connect((8, h.log.clone(), false));
    assert!(matches!(h.rt.apply_polled(Polled::Item(ev), 0), Ok(Some(Applied::Connected { id: 8 }))));
    assert!(h.rt.has_resource(&8));
}

#[test]
fn apply_shutdown_maps_each_outcome() {
    let mut h = harness();
    connect(&mut h, 1, false);
    assert!(matches!(h.rt.apply_shutdown(Polled::Empty), Signal::Continue));
    assert!(h.rt.has_resource(&1));
    assert!(matches!(h.rt.apply_shutdown(Polled::Closed), Signal::Orphaned));
    assert!(h.rt.has_resource(&1));
    assert!(matches!(h.rt.apply_shutdown(Polled::Item(())), Signal::Stop));
    assert_eq!(h.rt.resource_count(), 0);
    assert!(h.io.lock().unwrap().watched.is_empty());
}

#[test]
fn send_to_unknown_id_is_dropped_silently() {
    let mut h = harness();
    connect(&mut h, 3, false);
    assert!(matches!(h.rt.handle_control(ControlEvent::Send(99, 1), 0), Applied::Dropped));
    assert!(h.log.lock().unwrap().errors.is_empty());
    assert!(matches!(h.rt.handle_control(ControlEvent::Send(3, 8), 0), Applied::Delivered { id: 3, handling: Handling::Done }));
    assert_eq!(h.log.lock().unwrap().cmds, vec![(3, 8)]);
}

#[test]
fn thousand_commands_all_delivered() {
    let mut h = harness();
    connect(&mut h, 4, false);
    let mut controllers: Vec<Controller<Dummy>> = (0..8).map(|_| h.controller.clone()).collect();
    for i in 0..1000u32 {
        let c = &mut controllers[(i % 8) as usize];
        assert!(c.send(4, i).is_ok());
    }
    assert!(h.rt.process_control(0).is_ok());
    let log = h.log.lock().unwrap();
    assert_eq!(log.cmds.len(), 1000);
    let got: Vec<u32> = log.cmds.iter().map(|c| c.1).collect();
    assert_eq!(got, (0..1000u32).collect::<Vec<u32>>());
}

#[test]
fn control_events_from_one_sender_apply_in_order() {
    let mut h = harness();
    let log = h.log.clone();
    h.controller.connect((6, log, false)).unwrap();
    h.controller.send(6, 1).unwrap();
    h.controller.disconnect(6).unwrap();
    h.controller.send(6, 2).unwrap();
    assert!(h.rt.process_control(0).is_ok());
    assert_eq!(h.log.lock().unwrap().cmds, vec![(6, 1)]);
    assert!(!h.rt.has_resource(&6));
}

#[test]
fn readiness_reaches_only_registered_resources() {
    let mut h = harness();
    connect(&mut h, 1, false);
    connect(&mut h, 2, false);
    {
        let mut st = h.io.lock().unwrap();
        st.ready.push(IoSrc { source: 2, io: IoEv { is_readable: true, is_writable: false } });
        st.ready.push(IoSrc { source: 77, io: IoEv { is_readable: true, is_writable: false } });
    }
    assert_eq!(h.rt.poll(0), Some(false));
    let first = h.rt.next_ready().unwrap();
    assert_eq!(h.rt.dispatch_io(first), Some(Handling::Done));
    let second = h.rt.next_ready().unwrap();
    assert_eq!(h.rt.dispatch_io(second), None);
    assert!(h.rt.next_ready().is_none());
    assert_eq!(h.log.lock().unwrap().io_ready, vec![2]);
    assert!(h.log.lock().unwrap().errors.is_empty());
}

#[test]
fn io_error_escalates_to_broker() {
    let mut h = harness();
    connect(&mut h, 1, true);
    let h1 = h.rt.dispatch_io(IoSrc { source: 1, io: IoEv { is_readable: true, is_writable: true } });
    assert_eq!(h1, Some(Handling::Escalated));
    assert_eq!(h.log.lock().unwrap().errors, vec!["io failure on 1".to_string()]);
    assert!(h.rt.has_resource(&1));
}

#[test]
fn poll_failure_reported_once_then_loop_goes_on() {
    let mut h = harness();
    h.io.lock().unwrap().fail_poll = true;
    assert_eq!(h.rt.poll(0), None);
    assert_eq!(h.log.lock().unwrap().errors, vec!["poll failed".to_string()]);
    assert_eq!(h.rt.poll(1), Some(true));
    assert_eq!(h.log.lock().unwrap().errors.len(), 1);
    assert_eq!(h.io.lock().unwrap().polls, 2);
}

#[test]
fn timer_token_reaches_broker_at_deadline() {
    let mut h = harness();
    let r = h.rt.handle_control(ControlEvent::SetTimer(50, 42), 1000);
    assert!(matches!(r, Applied::TimerSet { deadline: 1050 }));
    h.rt.fire_timers(1049);
    assert!(h.log.lock().unwrap().timers.is_empty());
    h.rt.fire_timers(1050);
    assert_eq!(h.log.lock().unwrap().timers, vec![42]);
    h.rt.fire_timers(2000);
    assert_eq!(h.log.lock().unwrap().timers, vec![42]);
}

#[test]
fn timer_deadline_saturates() {
    let mut h = harness();
    let r = h.rt.handle_control(ControlEvent::SetTimer(u64::MAX, 1), 10);
    assert!(matches!(r, Applied::TimerSet { deadline: u64::MAX }));
}

#[test]
fn shutdown_releases_everything() {
    let mut h = harness();
    connect(&mut h, 1, false);
    connect(&mut h, 2, false);
    assert!(matches!(h.rt.process_shutdown(0), Signal::Continue));
    h.shutdown.send(()).unwrap();
    assert!(matches!(h.rt.process_shutdown(0), Signal::Stop));
    assert_eq!(h.rt.resource_count(), 0);
    assert!(h.io.lock().unwrap().watched.is_empty());
}

#[test]
fn lost_shutdown_channel_is_reported() {
    let Harness { mut rt, shutdown, .. } = harness();
    drop(shutdown);
    assert!(matches!(rt.process_shutdown(0), Signal::Orphaned));
}

#[test]
fn sending_to_a_dead_runtime_fails() {
    let h = harness();
    let mut c = h.controller.clone();
    drop(h);
    assert!(matches!(c.send(1, 1), Err(InternalError::ControlChannelBroken)));
    assert!(matches!(c.connect((1, Arc::new(Mutex::new(Log::default())), false)), Err(InternalError::ControlChannelBroken)));
    assert!(matches!(c.set_timer(5, 5), Err(InternalError::ControlChannelBroken)));
    assert!(matches!(c.disconnect(1), Err(InternalError::ControlChannelBroken)));
}

#[test]
fn internal_error_messages() {
    assert_eq!(InternalError::ControlChannelBroken.message(), "control channel is broken; unable to send request");
    assert_eq!(InternalError::ShutdownChannelBroken.message(), "shutdown channel in the reactor is broken");
    assert_eq!(InternalError::ThreadError("boom".to_string()).message(), "error joining runtime");
}

#[test]
fn release_all_unwatches_every_registered_id() {
    let mut h = harness();
    connect(&mut h, 1, false);
    connect(&mut h, 2, false);
    h.io.lock().unwrap().watched.insert(50);
    assert_eq!(h.rt.release_all(), 0);
    assert_eq!(h.rt.resource_count(), 0);
    let watched: Vec<u64> = h.io.lock().unwrap().watched.iter().copied().collect();
    assert_eq!(watched, vec![50]);
}

#[test]
fn shutdown_applies_queued_commands_first() {
    let mut h = harness();
    connect(&mut h, 4, false);
    for i in 0..10u32 {
        h.controller.send(4, i).unwrap();
    }
    h.shutdown.send(()).unwrap();
    assert!(matches!(h.rt.process_shutdown(0), Signal::Stop));
    assert_eq!(h.log.lock().unwrap().cmds.len(), 10);
    assert_eq!(h.rt.resource_count(), 0);
}

#[test]
fn process_control_reports_each_event_in_order() {
    let mut h = harness();
    let log = h.log.clone();
    h.controller.connect((3, log, false)).unwrap();
    h.controller.send(3, 1).unwrap();
    h.controller.set_timer(5, 9).unwrap();
    h.controller.disconnect(3).unwrap();
    let reports = match h.rt.process_control(100) {
        Ok(v) => v,
        Err(_) => panic!("control channel lost"),
    };
    assert_eq!(reports.len(), 4);
    assert!(matches!(reports[0], Applied::Connected { id: 3 }));
    assert!(matches!(reports[1], Applied::Delivered { id: 3, handling: Handling::Done }));
    assert!(matches!(reports[2], Applied::TimerSet { deadline: 105 }));
    assert!(matches!(reports[3], Applied::Disconnected { id: 3, released: true }));
}
