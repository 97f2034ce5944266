use audioshop::aggregate_device::AggregateDevice;
use audioshop::backend::CABackend;
use audioshop::cf::{CFError, CFMutableArray, CFString, CFValue};
use audioshop::device::CADevice;
use audioshop::properties::element::Master;
use audioshop::properties::scope::{Global, Output, Wildcard};
use audioshop::properties::selector::{
    AggregateDevicePropertyFullSubDeviceList, DevicePropertyDeviceUID,
    DevicePropertyNominalSampleRate, HardwarePropertyDevices, HardwarePropertyPlugInForBundleID,
    PlugInCreateAggregateDevice, PlugInDestroyAggregateDevice,
};
use audioshop::properties::{address, PropertyType, SYSTEM_OBJECT};
use audioshop::protocol::{
    AudioValueTranslation, Float64, Machine, Payload, PayloadKind, Region, Reply, Request, Step,
    Teardown,
};
use audioshop::session::CASession;
use audioshop::traits::{Backend, Device, Session};

const UID: &str = "com.github.mhallin.Audioshop";
const BAD_OBJECT: i32 = 560947818;

struct Dev {
    id: u32,
    uid: String,
    subs: Vec<String>,
    rate: u64,
}

/// A stand-in for the audio subsystem that answers requests from memory.
struct Sim {
    plugin: u32,
    devices: Vec<Dev>,
    registrations: Vec<(u32, u64)>,
    running: Vec<(u32, u64)>,
    next_device: u32,
    next_registration: u64,
    /// The request, counted from 0, that fails, and the status it fails with.
    fail: Option<(usize, i32)>,
    /// A second request that fails.
    fail_too: Option<(usize, i32)>,
    /// The device that goes away once the size of the device list has been
    /// probed.
    vanishing: Option<u32>,
    served: usize,
    log: Vec<&'static str>,
}

impl Sim {
    fn new(devices: &[(u32, &str)]) -> Sim {
        Sim {
            plugin: 7,
            devices: devices
                .iter()
                .map(|(id, uid)| Dev { id: *id, uid: uid.to_string(), subs: vec![], rate: 0 })
                .collect(),
            registrations: vec![],
            running: vec![],
            next_device: 100,
            next_registration: 1000,
            fail: None,
            fail_too: None,
            vanishing: None,
            served: 0,
            log: vec![],
        }
    }

    fn find(&self, id: u32) -> Option<usize> {
        self.devices.iter().position(|d| d.id == id)
    }

    fn with_uid(&self, uid: &str) -> Vec<u32> {
        self.devices.iter().filter(|d| d.uid == uid).map(|d| d.id).collect()
    }

    fn ok(data: Payload) -> Reply {
        Reply { status: 0, size: 0, data }
    }

    fn perform(&mut self, request: &Request) -> Reply {
        let n = self.served;
        self.served += 1;
        self.log.push(match request {
            Request::PropertyDataSize { .. } => "size",
            Request::PropertyData { .. } => "query",
            Request::SetPropertyData { .. } => "write",
            Request::CreateIOProcID { .. } => "register",
            Request::DeviceStart { .. } => "start",
            Request::DeviceStop { .. } => "stop",
            Request::DestroyIOProcID { .. } => "unregister",
        });
        for f in [self.fail, self.fail_too] {
            if let Some((at, status)) = f {
                if at == n {
                    return Reply::failure(status);
                }
            }
        }
        self.answer(request)
    }

    fn answer(&mut self, request: &Request) -> Reply {
        let devices_at = address(Master, Wildcard, HardwarePropertyDevices);
        match request {
            Request::PropertyDataSize { object, address: a } => {
                if *object == SYSTEM_OBJECT && *a == devices_at {
                    let size = 4 * self.devices.len() as u32;
                    if let Some(gone) = self.vanishing.take() {
                        self.devices.retain(|d| d.id != gone);
                    }
                    Reply { status: 0, size, data: Payload::Nothing }
                } else {
                    Reply::failure(BAD_OBJECT)
                }
            }
            Request::PropertyData { object, address: a, qualifier, size: _, region } => {
                if *a == address(Master, Global, HardwarePropertyPlugInForBundleID) {
                    match region {
                        Region::Filled(Payload::Translation(t)) => {
                            Sim::ok(Payload::Translation(AudioValueTranslation {
                                input: t.input.clone(),
                                output: self.plugin,
                            }))
                        }
                        _ => Reply::failure(BAD_OBJECT),
                    }
                } else if *a == devices_at {
                    match region {
                        Region::Blank { kind: PayloadKind::DeviceList, capacity } => {
                            // The memory holds `capacity` handles whatever is written.
                            let mut list = vec![CADevice::uninit(); *capacity];
                            let mut written = 0;
                            for (slot, d) in list.iter_mut().zip(self.devices.iter()) {
                                *slot = CADevice::new(d.id);
                                written += 1;
                            }
                            Reply { status: 0, size: 4 * written, data: Payload::DeviceList(list) }
                        }
                        _ => Reply::failure(BAD_OBJECT),
                    }
                } else if *a == address(Master, Output, DevicePropertyDeviceUID) {
                    match self.find(*object) {
                        Some(i) => Sim::ok(Payload::String(CFString::new(&self.devices[i].uid))),
                        None => Reply::failure(BAD_OBJECT),
                    }
                } else if *a == address(Master, Global, AggregateDevicePropertyFullSubDeviceList) {
                    match self.find(*object) {
                        Some(i) => {
                            let mut array = CFMutableArray::new();
                            for s in &self.devices[i].subs {
                                array.push(CFString::new(s));
                            }
                            Sim::ok(Payload::Array(array.clone_immutable()))
                        }
                        None => Reply::failure(BAD_OBJECT),
                    }
                } else if *a == address(Master, Wildcard, DevicePropertyNominalSampleRate) {
                    match self.find(*object) {
                        Some(i) => Sim::ok(Payload::Float64(Float64 { bits: self.devices[i].rate })),
                        None => Reply::failure(BAD_OBJECT),
                    }
                } else if *a == address(Master, Global, PlugInCreateAggregateDevice)
                    && *object == self.plugin
                {
                    let description = match qualifier {
                        Some(d) => d,
                        None => return Reply::failure(BAD_OBJECT),
                    };
                    let mut uid = String::new();
                    for i in 0..description.len() {
                        if description.key(i).to_string() == "uid" {
                            if let CFValue::String(s) = description.value(i) {
                                uid = s.to_string();
                            }
                        }
                    }
                    let id = self.next_device;
                    self.next_device += 1;
                    self.devices.push(Dev { id, uid, subs: vec![], rate: 0 });
                    Sim::ok(Payload::Device(CADevice::new(id)))
                } else if *a == address(Master, Global, PlugInDestroyAggregateDevice)
                    && *object == self.plugin
                {
                    match region {
                        Region::Filled(Payload::Device(d)) => match self.find(d.id()) {
                            Some(i) => {
                                self.devices.remove(i);
                                Sim::ok(Payload::Device(*d))
                            }
                            None => Reply::failure(BAD_OBJECT),
                        },
                        _ => Reply::failure(BAD_OBJECT),
                    }
                } else {
                    Reply::failure(BAD_OBJECT)
                }
            }
            Request::SetPropertyData { object, address: a, size: _, value } => {
                let i = match self.find(*object) {
                    Some(i) => i,
                    None => return Reply::failure(BAD_OBJECT),
                };
                match value {
                    Payload::Array(list)
                        if *a == address(Master, Global, AggregateDevicePropertyFullSubDeviceList) =>
                    {
                        self.devices[i].subs =
                            (0..list.len()).map(|j| list.get(j).to_string()).collect();
                        Sim::ok(Payload::Nothing)
                    }
                    Payload::Float64(rate)
                        if *a == address(Master, Wildcard, DevicePropertyNominalSampleRate) =>
                    {
                        self.devices[i].rate = rate.bits;
                        Sim::ok(Payload::Nothing)
                    }
                    _ => Reply::failure(BAD_OBJECT),
                }
            }
            Request::CreateIOProcID { device } => {
                if self.find(*device).is_none() {
                    return Reply::failure(BAD_OBJECT);
                }
                let id = self.next_registration;
                self.next_registration += 1;
                self.registrations.push((*device, id));
                Sim::ok(Payload::ProcID(id))
            }
            Request::DeviceStart { device, proc_id } => {
                if !self.registrations.contains(&(*device, *proc_id)) {
                    return Reply::failure(BAD_OBJECT);
                }
                self.running.push((*device, *proc_id));
                Sim::ok(Payload::Nothing)
            }
            Request::DeviceStop { device, proc_id } => {
                if !self.registrations.contains(&(*device, *proc_id)) {
                    return Reply::failure(BAD_OBJECT);
                }
                self.running.retain(|r| *r != (*device, *proc_id));
                Sim::ok(Payload::Nothing)
            }
            Request::DestroyIOProcID { device, proc_id } => {
                if !self.registrations.contains(&(*device, *proc_id)) {
                    return Reply::failure(BAD_OBJECT);
                }
                self.registrations.retain(|r| *r != (*device, *proc_id));
                self.running.retain(|r| *r != (*device, *proc_id));
                Sim::ok(Payload::Nothing)
            }
        }
    }
}

fn drive<M: Machine>(sim: &mut Sim, machine: M) -> Step<M, M::Output> {
    let mut machine = machine;
    loop {
        let reply = sim.perform(machine.request());
        assert!(reply.answers(machine.request()));
        match machine.advance(reply) {
            Step::Continue(next) => machine = next,
            step => return step,
        }
    }
}

fn done<M, T>(step: Step<M, T>) -> T {
    match step {
        Step::Done(value) => value,
        Step::Continue(_) => panic!("the machine did not end"),
        Step::Failed(e) => panic!("the machine failed with {}", e.to_string()),
        Step::Fatal(_, e) => panic!("the machine broke with {}", e.to_string()),
    }
}

fn outcome<M, T>(step: Step<M, T>) -> Result<(), (Option<Teardown>, CFError)> {
    match step {
        Step::Done(_) => Ok(()),
        Step::Continue(_) => panic!("the machine did not end"),
        Step::Failed(e) => Err((None, e)),
        Step::Fatal(t, e) => Err((Some(t), e)),
    }
}

fn start(sim: &mut Sim, input: u32, output: u32) -> CASession {
    let backend = CABackend::new().unwrap();
    done(drive(sim, backend.start_session(CADevice::new(input), CADevice::new(output))))
}

#[test]
fn session_joins_two_devices_and_leaves_nothing_behind() {
    let mut sim = Sim::new(&[(10, "uid-a"), (11, "uid-b")]);
    let backend = CABackend::new().unwrap();
    let devices = done(drive(&mut sim, backend.all_devices()));
    let devices = Vec::<CADevice>::from_payload(devices).unwrap();
    assert_eq!(devices, vec![CADevice::new(10), CADevice::new(11)]);
    let (a, b) = (devices[0], devices[1]);

    let session = done(drive(&mut sim, backend.start_session(a, b)));
    let virtual_device = session.aggregate_device().device();
    assert_eq!(sim.with_uid(UID), vec![virtual_device.id()]);
    let i = sim.find(virtual_device.id()).unwrap();
    assert_eq!(sim.devices[i].subs, vec!["uid-a".to_string(), "uid-b".to_string()]);
    assert_eq!(session.input_device(), Ok(a));
    assert_eq!(session.output_device(), Ok(b));
    assert_eq!(session.aggregate_device().plugin_id(), 7);
    assert_eq!(session.registration(), Some(1000));
    assert_eq!(sim.registrations, vec![(virtual_device.id(), 1000)]);
    assert_eq!(sim.running, vec![(virtual_device.id(), 1000)]);

    done(drive(&mut sim, session.stop()));
    assert_eq!(sim.with_uid(UID), Vec::<u32>::new());
    assert_eq!(sim.registrations, vec![]);
    assert_eq!(sim.running, vec![]);
    assert_eq!(sim.devices.len(), 2);
}

#[test]
fn device_that_vanishes_after_the_probe_is_not_listed() {
    let mut sim = Sim::new(&[(10, "uid-a"), (11, "uid-b"), (12, "uid-c")]);
    sim.vanishing = Some(11);
    let backend = CABackend::new().unwrap();
    let devices = done(drive(&mut sim, backend.all_devices()));
    let devices = Vec::<CADevice>::from_payload(devices).unwrap();
    assert_eq!(devices, vec![CADevice::new(10), CADevice::new(12)]);
}

#[test]
fn session_starts_though_a_device_vanishes_during_the_listing() {
    let mut sim = Sim::new(&[(10, "uid-a"), (11, "uid-b"), (12, "uid-c")]);
    sim.vanishing = Some(12);
    let session = start(&mut sim, 10, 11);
    assert_eq!(session.aggregate_device().device(), CADevice::new(100));
    assert_eq!(sim.with_uid(UID), vec![100]);
    // Two devices examined, not three, and no read from the handle that
    // names no device.
    assert_eq!(
        sim.log,
        vec![
            "query", "size", "query", "query", "query", "query", "query", "query", "write",
            "register", "start"
        ]
    );
    assert_eq!(sim.devices[2].subs, vec!["uid-a".to_string(), "uid-b".to_string()]);
}

#[test]
fn session_is_at_hand_before_the_clock_is_asked_to_start() {
    let mut sim = Sim::new(&[(10, "uid-a"), (11, "uid-b")]);
    let backend = CABackend::new().unwrap();
    let mut machine = backend.start_session(CADevice::new(10), CADevice::new(11));
    let mut slot: Option<CASession> = None;
    let session = loop {
        match machine.request() {
            Request::DeviceStart { device, proc_id } => {
                let stored = machine.registered().expect("the registration is stored");
                assert_eq!(stored.registration(), Some(*proc_id));
                assert_eq!(stored.aggregate_device().device().id(), *device);
                assert_eq!(sim.registrations, vec![(*device, *proc_id)]);
                assert!(sim.running.is_empty());
                slot = Some(stored);
            }
            _ => assert_eq!(machine.registered(), None),
        }
        let reply = sim.perform(machine.request());
        assert!(reply.answers(machine.request()));
        match machine.advance(reply) {
            Step::Continue(next) => machine = next,
            Step::Done(session) => break session,
            other => panic!("the start failed: {:?}", outcome(other)),
        }
    };
    assert_eq!(slot, Some(session));
}

#[test]
fn session_is_not_at_hand_while_a_failed_start_unwinds() {
    let mut sim = Sim::new(&[(10, "uid-a"), (11, "uid-b")]);
    sim.fail = Some((10, -9));
    let backend = CABackend::new().unwrap();
    let mut machine = backend.start_session(CADevice::new(10), CADevice::new(11));
    let mut seen = 0;
    let step = loop {
        if machine.registered().is_some() {
            seen += 1;
            assert!(matches!(machine.request(), Request::DeviceStart { .. }));
        }
        let reply = sim.perform(machine.request());
        match machine.advance(reply) {
            Step::Continue(next) => machine = next,
            step => break step,
        }
    };
    assert_eq!(seen, 1);
    assert_eq!(outcome(step), Err((None, CFError(-9))));
    assert_eq!(sim.with_uid(UID), Vec::<u32>::new());
}

#[test]
fn start_asks_in_the_fixed_order() {
    let mut sim = Sim::new(&[(10, "uid-a"), (11, "uid-b")]);
    start(&mut sim, 10, 11);
    assert_eq!(
        sim.log,
        vec![
            "query", "size", "query", "query", "query", "query", "query", "query", "write",
            "register", "start"
        ]
    );
}

#[test]
fn second_start_reuses_the_virtual_device() {
    let mut sim = Sim::new(&[(10, "uid-a"), (11, "uid-b")]);
    let first = start(&mut sim, 10, 11);
    let second = start(&mut sim, 11, 10);
    assert_eq!(first.aggregate_device().device(), second.aggregate_device().device());
    assert_eq!(sim.with_uid(UID).len(), 1);
    assert_eq!(sim.devices.len(), 3);
    let i = sim.find(second.aggregate_device().device().id()).unwrap();
    assert_eq!(sim.devices[i].subs, vec!["uid-b".to_string(), "uid-a".to_string()]);
}

#[test]
fn existing_virtual_device_is_attached_and_rewired() {
    let mut sim = Sim::new(&[(10, "uid-a"), (42, UID), (11, "uid-b")]);
    sim.devices[1].subs = vec!["stale".to_string()];
    let session = start(&mut sim, 11, 10);
    assert_eq!(session.aggregate_device().device(), CADevice::new(42));
    assert_eq!(sim.devices.len(), 3);
    assert_eq!(sim.devices[1].subs, vec!["uid-b".to_string(), "uid-a".to_string()]);
}

#[test]
fn first_of_two_devices_with_the_uid_is_taken() {
    let mut sim = Sim::new(&[(10, "uid-a"), (42, UID), (43, UID)]);
    let session = start(&mut sim, 10, 10);
    assert_eq!(session.aggregate_device().device(), CADevice::new(42));
}

#[test]
fn one_device_for_input_and_output_gives_one_entry() {
    let mut sim = Sim::new(&[(10, "uid-a"), (11, "uid-b")]);
    let session = start(&mut sim, 11, 11);
    let i = sim.find(session.aggregate_device().device().id()).unwrap();
    assert_eq!(sim.devices[i].subs, vec!["uid-b".to_string()]);
}

#[test]
fn empty_device_list_leads_to_creation() {
    let mut sim = Sim::new(&[]);
    let backend = CABackend::new().unwrap();
    let setup = AggregateDevice::new(&backend, CADevice::new(10), CADevice::new(11));
    // The device is made, but the inputs are not there to be read.
    assert_eq!(outcome(drive(&mut sim, setup)), Err((None, CFError(BAD_OBJECT))));
    assert_eq!(sim.log, vec!["query", "size", "query", "query", "query", "query"]);
    assert_eq!(sim.devices.len(), 0);
}

#[test]
fn backend_uid_is_the_one_looked_for_and_created() {
    let mut sim = Sim::new(&[(10, "uid-a"), (42, UID)]);
    let backend = CABackend::with_aggregate_device_uid(CFString::new("my.own.uid"));
    assert_eq!(backend.aggregate_device_uid().to_string(), "my.own.uid");
    let session =
        done(drive(&mut sim, backend.start_session(CADevice::new(10), CADevice::new(10))));
    assert_eq!(session.aggregate_device().device(), CADevice::new(100));
    assert_eq!(sim.with_uid("my.own.uid"), vec![100]);
}

#[test]
fn swap_of_the_input_rewires_with_the_clock_stopped() {
    let mut sim = Sim::new(&[(10, "uid-a"), (11, "uid-b"), (12, "uid-c")]);
    let mut session = start(&mut sim, 10, 11);
    sim.log.clear();
    let swap = session.set_input_device(CADevice::new(12));
    assert_eq!(session.input_device(), Ok(CADevice::new(12)));
    assert_eq!(session.output_device(), Ok(CADevice::new(11)));
    done(drive(&mut sim, swap));
    assert_eq!(sim.log, vec!["stop", "query", "query", "write", "start"]);
    let id = session.aggregate_device().device().id();
    let i = sim.find(id).unwrap();
    assert_eq!(sim.devices[i].subs, vec!["uid-c".to_string(), "uid-b".to_string()]);
    assert_eq!(sim.running, vec![(id, 1000)]);

    // A read of the routing attribute shows the new input first.
    let read = audioshop::properties::get(
        Master,
        Global,
        AggregateDevicePropertyFullSubDeviceList,
        id,
    );
    let list = done(drive(&mut sim, read));
    match list {
        Payload::Array(list) => {
            assert_eq!(list.len(), 2);
            assert_eq!(list.get(0).to_string(), "uid-c");
            assert_eq!(list.get(1).to_string(), "uid-b");
        }
        other => panic!("not a list: {:?}", other),
    }
}

#[test]
fn swap_of_the_output_rewires() {
    let mut sim = Sim::new(&[(10, "uid-a"), (11, "uid-b"), (12, "uid-c")]);
    let mut session = start(&mut sim, 10, 11);
    let swap = session.set_output_device(CADevice::new(10));
    done(drive(&mut sim, swap));
    let i = sim.find(session.aggregate_device().device().id()).unwrap();
    assert_eq!(sim.devices[i].subs, vec!["uid-a".to_string()]);
}

#[test]
fn failed_refresh_in_a_swap_still_restarts_the_clock() {
    let mut sim = Sim::new(&[(10, "uid-a"), (11, "uid-b")]);
    let mut session = start(&mut sim, 10, 11);
    sim.log.clear();
    let swap = session.set_input_device(CADevice::new(99));
    assert_eq!(outcome(drive(&mut sim, swap)), Err((None, CFError(BAD_OBJECT))));
    assert_eq!(sim.log, vec!["stop", "query", "start"]);
    assert_eq!(session.input_device(), Ok(CADevice::new(99)));
    assert_eq!(sim.running.len(), 1);
}

#[test]
fn clock_that_does_not_stop_ends_the_swap() {
    let mut sim = Sim::new(&[(10, "uid-a"), (11, "uid-b")]);
    let mut session = start(&mut sim, 10, 11);
    sim.fail = Some((sim.served, -50));
    sim.log.clear();
    let swap = session.set_input_device(CADevice::new(11));
    assert_eq!(outcome(drive(&mut sim, swap)), Err((None, CFError(-50))));
    assert_eq!(sim.log, vec!["stop"]);
}

#[test]
fn aggregate_device_setters_hand_out_the_refresh() {
    let mut sim = Sim::new(&[(10, "uid-a"), (11, "uid-b"), (12, "uid-c")]);
    let backend = CABackend::new().unwrap();
    let mut aggregate =
        done(drive(&mut sim, AggregateDevice::new(&backend, CADevice::new(10), CADevice::new(11))));
    assert_eq!(aggregate.input(), CADevice::new(10));
    assert_eq!(aggregate.output(), CADevice::new(11));
    let refresh = aggregate.set_output(CADevice::new(12));
    assert_eq!(aggregate.output(), CADevice::new(12));
    done(drive(&mut sim, refresh));
    let i = sim.find(aggregate.device().id()).unwrap();
    assert_eq!(sim.devices[i].subs, vec!["uid-a".to_string(), "uid-c".to_string()]);
    let refresh = aggregate.set_input(CADevice::new(12));
    done(drive(&mut sim, refresh));
    assert_eq!(sim.devices[i].subs, vec!["uid-c".to_string()]);
    done(drive(&mut sim, aggregate.destroy()));
    assert_eq!(sim.with_uid(UID), Vec::<u32>::new());
}

#[test]
fn session_hands_out_its_aggregate_device_to_work_on() {
    let mut sim = Sim::new(&[(10, "uid-a"), (11, "uid-b")]);
    let mut session = start(&mut sim, 10, 11);
    let refresh = session.aggregate_device_mut().set_input(CADevice::new(11));
    done(drive(&mut sim, refresh));
    assert_eq!(session.input_device(), Ok(CADevice::new(11)));
}

#[test]
fn nominal_sample_rate_comes_back_as_written() {
    let mut sim = Sim::new(&[(10, "uid-a")]);
    let mut device = CADevice::new(10);
    let rate = Float64 { bits: 48000.0f64.to_bits() };
    assert_eq!(rate.bits, 4676829883349860352);
    let write = device.set_nominal_sample_rate(rate);
    assert_eq!(done(drive(&mut sim, write)), Payload::Nothing);
    let read = done(drive(&mut sim, device.nominal_sample_rate()));
    let read = Float64::from_payload(read).unwrap();
    assert_eq!(f64::from_bits(read.bits), 48000.0);
}

#[test]
fn failure_of_each_step_of_the_attachment_is_carried_up() {
    for at in 0..6 {
        let mut sim = Sim::new(&[(10, "uid-a"), (11, "uid-b")]);
        sim.fail = Some((at, -(at as i32) - 1));
        let backend = CABackend::new().unwrap();
        let setup = AggregateDevice::new(&backend, CADevice::new(10), CADevice::new(11));
        assert_eq!(outcome(drive(&mut sim, setup)), Err((None, CFError(-(at as i32) - 1))));
        assert_eq!(sim.served, at + 1);
        assert_eq!(sim.devices.len(), 2);
    }
}

#[test]
fn failed_refresh_destroys_the_virtual_device() {
    for at in 6..9 {
        let mut sim = Sim::new(&[(10, "uid-a"), (11, "uid-b")]);
        sim.fail = Some((at, -9));
        let backend = CABackend::new().unwrap();
        let setup = AggregateDevice::new(&backend, CADevice::new(10), CADevice::new(11));
        assert_eq!(outcome(drive(&mut sim, setup)), Err((None, CFError(-9))));
        assert_eq!(sim.served, at + 2);
        assert_eq!(sim.with_uid(UID), Vec::<u32>::new());
    }
}

#[test]
fn failed_destruction_after_a_failed_refresh_is_fatal() {
    let mut sim = Sim::new(&[(10, "uid-a"), (11, "uid-b")]);
    sim.fail = Some((8, -9));
    sim.fail_too = Some((9, -10));
    let backend = CABackend::new().unwrap();
    let setup = AggregateDevice::new(&backend, CADevice::new(10), CADevice::new(11));
    assert_eq!(
        outcome(drive(&mut sim, setup)),
        Err((Some(Teardown::Destroy), CFError(-10)))
    );
}

#[test]
fn failed_registration_unwinds_the_attachment() {
    let mut sim = Sim::new(&[(10, "uid-a"), (11, "uid-b")]);
    sim.fail = Some((9, -11));
    let backend = CABackend::new().unwrap();
    let step = drive(&mut sim, backend.start_session(CADevice::new(10), CADevice::new(11)));
    assert_eq!(outcome(step), Err((None, CFError(-11))));
    assert_eq!(&sim.log[9..], &["register", "query"]);
    assert_eq!(sim.with_uid(UID), Vec::<u32>::new());
    assert_eq!(sim.registrations, vec![]);
}

#[test]
fn failed_clock_start_unwinds_registration_and_attachment() {
    let mut sim = Sim::new(&[(10, "uid-a"), (11, "uid-b")]);
    sim.fail = Some((10, -12));
    let backend = CABackend::new().unwrap();
    let step = drive(&mut sim, backend.start_session(CADevice::new(10), CADevice::new(11)));
    assert_eq!(outcome(step), Err((None, CFError(-12))));
    assert_eq!(&sim.log[9..], &["register", "start", "stop", "unregister", "query"]);
    assert_eq!(sim.with_uid(UID), Vec::<u32>::new());
    assert_eq!(sim.registrations, vec![]);
    assert_eq!(sim.running, vec![]);
}

#[test]
fn teardown_failures_are_fatal_and_name_the_command() {
    let commands = [Teardown::Stop, Teardown::Unregister, Teardown::Destroy];
    for (k, command) in commands.iter().enumerate() {
        let mut sim = Sim::new(&[(10, "uid-a"), (11, "uid-b")]);
        let session = start(&mut sim, 10, 11);
        sim.fail = Some((sim.served + k, -20 - k as i32));
        sim.log.clear();
        let step = drive(&mut sim, session.stop());
        assert_eq!(outcome(step), Err((Some(*command), CFError(-20 - k as i32))));
        assert_eq!(sim.log.len(), k + 1);
    }
}

#[test]
fn teardown_goes_stop_unregister_destroy() {
    let mut sim = Sim::new(&[(10, "uid-a"), (11, "uid-b")]);
    let session = start(&mut sim, 10, 11);
    sim.log.clear();
    done(drive(&mut sim, session.stop()));
    assert_eq!(sim.log, vec!["stop", "unregister", "query"]);
}
