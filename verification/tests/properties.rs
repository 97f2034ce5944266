use audioshop::aggregate_device::{create_aggregate_device, get_audio_plugin_id, Destroy, Refresh};
use audioshop::backend::CABackend;
use audioshop::cf::{CFError, CFMutableArray, CFMutableDictionary, CFString, CFValue};
use audioshop::device::{CADevice, OBJECT_UNKNOWN};
use audioshop::properties::element::Master;
use audioshop::properties::scope::{Global, Input, Output, Wildcard};
use audioshop::properties::selector::{
    AggregateDevicePropertyFullSubDeviceList, DevicePropertyActualSampleRate,
    DevicePropertyDeviceUID, DevicePropertyNominalSampleRate, DevicePropertyStreamConfiguration,
    HardwarePropertyDefaultInputDevice, HardwarePropertyDefaultOutputDevice,
    HardwarePropertyDevices, HardwarePropertyPlugInForBundleID, ObjectPropertyName,
    PlugInCreateAggregateDevice, PlugInDestroyAggregateDevice,
};
use audioshop::properties::{
    address, get, get_qualified, translate, Element, PropertyType, Scope, Selector,
    SYSTEM_OBJECT,
};
use audioshop::protocol::{
    size_of_kind, AudioBuffer, AudioBufferList, AudioValueTranslation, Float64, Payload,
    PayloadKind, PropertyAddress, Region, Reply, Request, Step, Teardown, Transfer,
};
use audioshop::traits::{Backend, Device};

fn at(selector: u32, scope: u32) -> PropertyAddress {
    PropertyAddress { selector, scope, element: 0 }
}

fn success(size: u32, data: Payload) -> Reply {
    Reply { status: 0, size, data }
}

#[test]
fn tags_spell_their_four_character_codes() {
    assert_eq!(Master::element(), 0);
    assert_eq!(Global::scope(), 1735159650);
    assert_eq!(Input::scope(), 1768845428);
    assert_eq!(Output::scope(), 1869968496);
    assert_eq!(Wildcard::scope(), 707406378);
    assert_eq!(HardwarePropertyDevices::selector(), 1684370979);
    assert_eq!(HardwarePropertyDefaultInputDevice::selector(), 1682533920);
    assert_eq!(HardwarePropertyDefaultOutputDevice::selector(), 1682929012);
    assert_eq!(HardwarePropertyPlugInForBundleID::selector(), 1885954665);
    assert_eq!(AggregateDevicePropertyFullSubDeviceList::selector(), 1735554416);
    assert_eq!(PlugInDestroyAggregateDevice::selector(), 1684105063);
    assert_eq!(PlugInCreateAggregateDevice::selector(), 1667327847);
    assert_eq!(DevicePropertyDeviceUID::selector(), 1969841184);
    assert_eq!(DevicePropertyStreamConfiguration::selector(), 1936482681);
    assert_eq!(ObjectPropertyName::selector(), 1819173229);
    assert_eq!(DevicePropertyNominalSampleRate::selector(), 1853059700);
    assert_eq!(DevicePropertyActualSampleRate::selector(), 1634955892);
    assert_eq!(u32::from_be_bytes(*b"glob"), Global::scope());
    assert_eq!(u32::from_be_bytes(*b"uid "), DevicePropertyDeviceUID::selector());
    assert_eq!(SYSTEM_OBJECT, 1);
    assert_eq!(OBJECT_UNKNOWN, 0);
}

#[test]
fn address_is_put_together_from_three_tags() {
    assert_eq!(
        address(Master, Output, DevicePropertyDeviceUID),
        PropertyAddress { selector: 1969841184, scope: 1869968496, element: 0 }
    );
}

#[test]
fn device_handle_is_its_identifier() {
    assert_eq!(CADevice::new(17).id(), 17);
    assert_eq!(CADevice::uninit(), CADevice::new(0));
    assert_eq!(CADevice::new(3), CADevice(3));
    assert_ne!(CADevice::new(3), CADevice::new(4));
}

#[test]
fn sizes_of_the_shapes() {
    assert_eq!(size_of_kind(PayloadKind::Float64), 8);
    assert_eq!(size_of_kind(PayloadKind::Device), 4);
    assert_eq!(size_of_kind(PayloadKind::String), 8);
    assert_eq!(size_of_kind(PayloadKind::Array), 8);
    assert_eq!(size_of_kind(PayloadKind::Translation), 32);
    assert_eq!(size_of_kind(PayloadKind::DeviceList), 0);
    assert_eq!(size_of_kind(PayloadKind::BufferList), 0);
}

#[test]
fn scalar_read_is_one_query_of_fixed_size() {
    let read = get(Master, Wildcard, DevicePropertyActualSampleRate, 5);
    assert_eq!(
        *read.request(),
        Request::PropertyData {
            object: 5,
            address: at(1634955892, 707406378),
            qualifier: None,
            size: 8,
            region: Region::Blank { kind: PayloadKind::Float64, capacity: 1 },
        }
    );
    let rate = Payload::Float64(Float64 { bits: 44100.0f64.to_bits() });
    let reply = success(8, rate);
    assert!(reply.answers(read.request()));
    assert_eq!(
        read.advance(reply),
        Step::Done(Payload::Float64(Float64 { bits: 44100.0f64.to_bits() }))
    );
}

#[test]
fn failed_query_carries_the_status_and_no_value() {
    let read = get(Master, Wildcard, ObjectPropertyName, 5);
    let reply = Reply { status: -50, size: 8, data: Payload::String(CFString::new("half")) };
    assert!(reply.answers(read.request()));
    assert_eq!(read.advance(reply), Step::Failed(CFError(-50)));
}

#[test]
fn device_list_is_probed_then_read() {
    let backend = CABackend::new().unwrap();
    let read = backend.all_devices();
    assert_eq!(
        *read.request(),
        Request::PropertyDataSize { object: 1, address: at(1684370979, 707406378) }
    );
    let read = match read.advance(success(13, Payload::Nothing)) {
        Step::Continue(next) => next,
        other => panic!("ended early: {:?}", other),
    };
    assert_eq!(
        *read.request(),
        Request::PropertyData {
            object: 1,
            address: at(1684370979, 707406378),
            qualifier: None,
            size: 13,
            region: Region::Blank { kind: PayloadKind::DeviceList, capacity: 3 },
        }
    );
    let wrong = success(8, Payload::Device(CADevice::new(4)));
    assert!(!wrong.answers(read.request()));
    let long = success(12, Payload::DeviceList(vec![CADevice::new(4); 4]));
    assert!(!long.answers(read.request()));
    let missing = success(12, Payload::DeviceList(vec![CADevice::new(4), CADevice::new(9)]));
    assert!(!missing.answers(read.request()));
    let list = vec![CADevice::new(4), CADevice::new(9), CADevice::new(5)];
    let reply = success(12, Payload::DeviceList(list.clone()));
    assert!(reply.answers(read.request()));
    let payload = match read.advance(reply) {
        Step::Done(payload) => payload,
        other => panic!("did not end: {:?}", other),
    };
    assert_eq!(Vec::<CADevice>::from_payload(payload), Some(list));
}

fn listing_of(probed: u32, reply: Reply) -> Vec<CADevice> {
    let backend = CABackend::new().unwrap();
    let read = match backend.all_devices().advance(success(probed, Payload::Nothing)) {
        Step::Continue(next) => next,
        other => panic!("ended early: {:?}", other),
    };
    assert!(reply.answers(read.request()));
    match read.advance(reply) {
        Step::Done(payload) => Vec::<CADevice>::from_payload(payload).unwrap(),
        other => panic!("did not end: {:?}", other),
    }
}

#[test]
fn short_device_list_read_hands_on_what_was_written_only() {
    let region = vec![CADevice::new(4), CADevice::new(9), CADevice::uninit()];
    let written = vec![CADevice::new(4), CADevice::new(9)];
    // The memory as a whole, of which eight bytes were written.
    assert_eq!(listing_of(12, success(8, Payload::DeviceList(region.clone()))), written);
    // The handles that were written alone.
    assert_eq!(listing_of(12, success(8, Payload::DeviceList(written.clone()))), written);
    // Bytes that make no whole handle are no handle.
    assert_eq!(listing_of(12, success(11, Payload::DeviceList(region.clone()))), written);
    assert_eq!(listing_of(12, success(3, Payload::DeviceList(region.clone()))), Vec::<CADevice>::new());
    assert_eq!(listing_of(12, success(0, Payload::DeviceList(vec![]))), Vec::<CADevice>::new());
    // No more is handed on than there is room for, whatever is reported.
    assert_eq!(listing_of(12, success(400, Payload::DeviceList(region.clone()))), region);
}

#[test]
fn failed_device_list_read_hands_on_nothing() {
    let backend = CABackend::new().unwrap();
    let read = match backend.all_devices().advance(success(8, Payload::Nothing)) {
        Step::Continue(next) => next,
        other => panic!("ended early: {:?}", other),
    };
    let reply = Reply {
        status: -7,
        size: 8,
        data: Payload::DeviceList(vec![CADevice::new(4), CADevice::new(9)]),
    };
    assert!(reply.answers(read.request()));
    assert_eq!(read.advance(reply), Step::Failed(CFError(-7)));
}

#[test]
fn failed_probe_ends_the_read() {
    let backend = CABackend::new().unwrap();
    let read = backend.all_devices();
    assert_eq!(read.advance(Reply::failure(-3)), Step::Failed(CFError(-3)));
}

#[test]
fn empty_device_list_is_read_into_no_room() {
    let backend = CABackend::new().unwrap();
    let read = match backend.all_devices().advance(success(3, Payload::Nothing)) {
        Step::Continue(next) => next,
        other => panic!("ended early: {:?}", other),
    };
    match read.request() {
        Request::PropertyData { region, size, .. } => {
            assert_eq!(*size, 3);
            assert_eq!(*region, Region::Blank { kind: PayloadKind::DeviceList, capacity: 0 });
        }
        other => panic!("not a query: {:?}", other),
    }
}

#[test]
fn stream_configuration_gets_room_for_one_buffer_at_least() {
    for (probed, room) in [(0u32, 24usize), (8, 24), (24, 24), (25, 25), (40, 40)] {
        let read = CADevice::new(6).num_inputs();
        assert_eq!(
            *read.request(),
            Request::PropertyDataSize { object: 6, address: at(1936482681, 1768845428) }
        );
        let read = match read.advance(success(probed, Payload::Nothing)) {
            Step::Continue(next) => next,
            other => panic!("ended early: {:?}", other),
        };
        assert_eq!(
            *read.request(),
            Request::PropertyData {
                object: 6,
                address: at(1936482681, 1768845428),
                qualifier: None,
                size: probed,
                region: Region::Blank { kind: PayloadKind::BufferList, capacity: room },
            }
        );
    }
}

#[test]
fn number_of_outputs_is_the_number_of_channels() {
    let read = CADevice::new(6).num_outputs();
    assert_eq!(
        *read.request(),
        Request::PropertyDataSize { object: 6, address: at(1936482681, 1869968496) }
    );
    let read = match read.advance(success(40, Payload::Nothing)) {
        Step::Continue(next) => next,
        other => panic!("ended early: {:?}", other),
    };
    let list = AudioBufferList {
        buffers: vec![
            AudioBuffer { number_channels: 2, data_byte_size: 0 },
            AudioBuffer { number_channels: 1, data_byte_size: 0 },
        ],
    };
    let payload = match read.advance(success(40, Payload::BufferList(list))) {
        Step::Done(payload) => payload,
        other => panic!("did not end: {:?}", other),
    };
    let list = AudioBufferList::from_payload(payload).unwrap();
    assert_eq!(list.number_buffers(), 2);
    assert_eq!(list.number_channels(), Some(3));
}

#[test]
fn one_stereo_stream_is_two_inputs() {
    let read = match CADevice::new(6).num_inputs().advance(success(24, Payload::Nothing)) {
        Step::Continue(next) => next,
        other => panic!("ended early: {:?}", other),
    };
    let list = AudioBufferList {
        buffers: vec![AudioBuffer { number_channels: 2, data_byte_size: 4096 }],
    };
    let payload = match read.advance(success(24, Payload::BufferList(list))) {
        Step::Done(payload) => payload,
        other => panic!("did not end: {:?}", other),
    };
    let list = AudioBufferList::from_payload(payload).unwrap();
    assert_eq!(list.number_buffers(), 1);
    assert_eq!(list.number_channels(), Some(2));
}

#[test]
fn channel_count_adds_up_over_the_streams() {
    let of = |counts: &[u32]| AudioBufferList {
        buffers: counts
            .iter()
            .map(|c| AudioBuffer { number_channels: *c, data_byte_size: 0 })
            .collect(),
    };
    assert_eq!(of(&[]).number_channels(), Some(0));
    assert_eq!(of(&[0, 0]).number_channels(), Some(0));
    assert_eq!(of(&[1, 1, 1, 1]).number_channels(), Some(4));
    assert_eq!(of(&[8, 0, 2]).number_channels(), Some(10));
    assert_eq!(
        of(&[u32::MAX, u32::MAX]).number_channels(),
        2usize.checked_mul(u32::MAX as usize)
    );
}

#[test]
fn device_reads_use_their_addresses() {
    let device = CADevice::new(8);
    let expect = |selector: u32, scope: u32, size: u32, kind: PayloadKind| Request::PropertyData {
        object: 8,
        address: at(selector, scope),
        qualifier: None,
        size,
        region: Region::Blank { kind, capacity: 1 },
    };
    assert_eq!(*device.name().request(), expect(1819173229, 707406378, 8, PayloadKind::String));
    assert_eq!(*device.uid().request(), expect(1969841184, 1869968496, 8, PayloadKind::String));
    assert_eq!(
        *device.nominal_sample_rate().request(),
        expect(1853059700, 707406378, 8, PayloadKind::Float64)
    );
    assert_eq!(
        *device.actual_sample_rate().request(),
        expect(1634955892, 707406378, 8, PayloadKind::Float64)
    );
    let backend = CABackend::new().unwrap();
    let mut expected = expect(1682533920, 1735159650, 4, PayloadKind::Device);
    if let Request::PropertyData { object, .. } = &mut expected {
        *object = 1;
    }
    assert_eq!(*backend.default_input_device().request(), expected);
    let read = backend.default_output_device();
    assert_eq!(
        *read.request(),
        Request::PropertyData {
            object: 1,
            address: at(1682929012, 1735159650),
            qualifier: None,
            size: 4,
            region: Region::Blank { kind: PayloadKind::Device, capacity: 1 },
        }
    );
    let payload = match read.advance(success(4, Payload::Device(CADevice::new(55)))) {
        Step::Done(payload) => payload,
        other => panic!("did not end: {:?}", other),
    };
    assert_eq!(CADevice::from_payload(payload), Some(CADevice::new(55)));
}

#[test]
fn write_carries_the_value_and_ends_with_nothing() {
    let mut device = CADevice::new(8);
    let rate = Float64 { bits: 96000.0f64.to_bits() };
    let write = device.set_nominal_sample_rate(rate);
    assert_eq!(device, CADevice::new(8));
    assert_eq!(
        *write.request(),
        Request::SetPropertyData {
            object: 8,
            address: at(1853059700, 707406378),
            size: 8,
            value: Payload::Float64(rate),
        }
    );
    assert_eq!(write.advance(success(0, Payload::Nothing)), Step::Done(Payload::Nothing));
    let write = audioshop::properties::set(Master, Wildcard, DevicePropertyNominalSampleRate, 8, rate);
    assert_eq!(write.advance(Reply::failure(7)), Step::Failed(CFError(7)));
}

#[test]
fn sub_device_list_is_written_as_an_array_reference() {
    let mut array = CFMutableArray::new();
    array.push(CFString::new("in"));
    array.push(CFString::new("out"));
    let write =
        audioshop::properties::set(Master, Global, AggregateDevicePropertyFullSubDeviceList, 9, array.clone_immutable());
    assert_eq!(
        *write.request(),
        Request::SetPropertyData {
            object: 9,
            address: at(1735554416, 1735159650),
            size: 8,
            value: Payload::Array(array.clone_immutable()),
        }
    );
}

#[test]
fn plugin_lookup_translates_the_bundle_identifier() {
    let lookup = get_audio_plugin_id();
    assert_eq!(
        *lookup.request(),
        Request::PropertyData {
            object: 1,
            address: at(1885954665, 1735159650),
            qualifier: None,
            size: 32,
            region: Region::Filled(Payload::Translation(AudioValueTranslation {
                input: CFString::new("com.apple.audio.CoreAudio"),
                output: 0,
            })),
        }
    );
    let same = translate(
        Master,
        Global,
        HardwarePropertyPlugInForBundleID,
        1,
        AudioValueTranslation { input: CFString::new("com.apple.audio.CoreAudio"), output: 0 },
    );
    assert_eq!(same, lookup);
    let answer = Payload::Translation(AudioValueTranslation {
        input: CFString::new("com.apple.audio.CoreAudio"),
        output: 77,
    });
    let payload = match lookup.advance(success(32, answer)) {
        Step::Done(payload) => payload,
        other => panic!("did not end: {:?}", other),
    };
    assert_eq!(AudioValueTranslation::from_payload(payload).unwrap().output, 77);
}

#[test]
fn creation_describes_a_private_device_under_three_keys() {
    let creation = create_aggregate_device(77, CFString::new("some.uid"));
    let mut description = CFMutableDictionary::new();
    description.insert(
        CFString::new("name"),
        CFValue::String(CFString::new("Audioshop aggregate device")),
    );
    description.insert(CFString::new("uid"), CFValue::String(CFString::new("some.uid")));
    description
        .insert(CFString::new("private"), CFValue::Number(audioshop::cf::CFNumber::new(1)));
    assert_eq!(
        *creation.request(),
        Request::PropertyData {
            object: 77,
            address: at(1667327847, 1735159650),
            qualifier: Some(description.clone_immutable()),
            size: 4,
            region: Region::Blank { kind: PayloadKind::Device, capacity: 1 },
        }
    );
    let same =
        get_qualified(Master, Global, PlugInCreateAggregateDevice, description.clone_immutable(), 77);
    assert_eq!(same, creation);
}

#[test]
fn destruction_hands_the_device_to_the_plugin() {
    let destroy = Destroy::begin(77, CADevice::new(100));
    assert_eq!(
        *destroy.request(),
        Request::PropertyData {
            object: 77,
            address: at(1684105063, 1735159650),
            qualifier: None,
            size: 4,
            region: Region::Filled(Payload::Device(CADevice::new(100))),
        }
    );
    let same = translate(Master, Global, PlugInDestroyAggregateDevice, 77, CADevice::new(100));
    assert_eq!(same.request(), destroy.request());
    match Destroy::begin(77, CADevice::new(100)).advance(Reply::failure(-1)) {
        Step::Fatal(Teardown::Destroy, e) => assert_eq!(e, CFError(-1)),
        _ => panic!("a failed destruction is fatal"),
    }
    match destroy.advance(success(4, Payload::Device(CADevice::new(100)))) {
        Step::Done(()) => {}
        _ => panic!("the destruction ends well"),
    }
}

#[test]
fn refresh_reads_the_input_then_the_output_then_writes() {
    let refresh = Refresh::begin(100, CADevice::new(10), CADevice::new(11));
    let uid_of = |id: u32| Request::PropertyData {
        object: id,
        address: at(1969841184, 1869968496),
        qualifier: None,
        size: 8,
        region: Region::Blank { kind: PayloadKind::String, capacity: 1 },
    };
    assert_eq!(*refresh.request(), uid_of(10));
    let refresh = match refresh.advance(success(8, Payload::String(CFString::new("in")))) {
        Step::Continue(next) => next,
        _ => panic!("ended early"),
    };
    assert_eq!(*refresh.request(), uid_of(11));
    let refresh = match refresh.advance(success(8, Payload::String(CFString::new("out")))) {
        Step::Continue(next) => next,
        _ => panic!("ended early"),
    };
    let mut array = CFMutableArray::new();
    array.push(CFString::new("in"));
    array.push(CFString::new("out"));
    assert_eq!(
        *refresh.request(),
        Request::SetPropertyData {
            object: 100,
            address: at(1735554416, 1735159650),
            size: 8,
            value: Payload::Array(array.clone_immutable()),
        }
    );
    match refresh.advance(success(0, Payload::Nothing)) {
        Step::Done(()) => {}
        _ => panic!("the refresh ends well"),
    }
}

#[test]
fn refresh_of_one_device_writes_one_entry() {
    let refresh = Refresh::begin(100, CADevice::new(10), CADevice::new(10));
    let refresh = match refresh.advance(success(8, Payload::String(CFString::new("both")))) {
        Step::Continue(next) => next,
        _ => panic!("ended early"),
    };
    let mut array = CFMutableArray::new();
    array.push(CFString::new("both"));
    match refresh.request() {
        Request::SetPropertyData { value, object, .. } => {
            assert_eq!(*object, 100);
            assert_eq!(*value, Payload::Array(array.clone_immutable()));
        }
        other => panic!("not a write: {:?}", other),
    }
}

#[test]
fn payload_unwraps_only_as_its_own_shape() {
    assert_eq!(Payload::Device(CADevice::new(2)).kind(), PayloadKind::Device);
    assert_eq!(Payload::Nothing.kind(), PayloadKind::Nothing);
    assert_eq!(Payload::ProcID(3).kind(), PayloadKind::ProcID);
    assert_eq!(CFString::from_payload(Payload::Device(CADevice::new(2))), None);
    assert_eq!(CADevice::from_payload(Payload::Device(CADevice::new(2))), Some(CADevice::new(2)));
    assert_eq!(Float64::from_payload(Payload::Nothing), None);
    assert_eq!(CADevice::new(2).into_payload(), Payload::Device(CADevice::new(2)));
    assert_eq!(
        CFString::from_payload(CFString::new("x").into_payload()),
        Some(CFString::new("x"))
    );
}

#[test]
fn reply_answers_what_its_request_asked_for() {
    let register = Request::CreateIOProcID { device: 4 };
    assert!(success(0, Payload::ProcID(9)).answers(&register));
    assert!(!success(0, Payload::Nothing).answers(&register));
    assert!(Reply::failure(-1).answers(&register));
    let start = Request::DeviceStart { device: 4, proc_id: 9 };
    assert!(success(0, Payload::Nothing).answers(&start));
    let read = Transfer::reading(PayloadKind::String, 4, at(1, 2));
    assert!(success(0, Payload::String(CFString::new(""))).answers(read.request()));
    assert!(!success(0, Payload::Nothing).answers(read.request()));
    let translated = Transfer::translating(4, at(1, 2), Payload::Device(CADevice::new(1)));
    assert!(success(0, Payload::Device(CADevice::new(5))).answers(translated.request()));
    assert!(!success(0, Payload::ProcID(5)).answers(translated.request()));
    assert_eq!(Reply::failure(-7), Reply { status: -7, size: 0, data: Payload::Nothing });
}
