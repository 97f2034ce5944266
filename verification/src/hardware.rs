//! A reference model of the audio subsystem: what it holds, and how it
//! answers each primitive operation that the machines of this library ask
//! for. The model is mathematics only. It is what the laws about whole runs
//! of the machines are stated against; how far a real audio subsystem
//! behaves like it is for its vendor to say.
use vstd::prelude::*;
use crate::cf::{CFEntryView, CFValueView, NO_ERR};
use crate::device::{CADevice, OBJECT_UNKNOWN};
use crate::properties::address_of;
use crate::properties::element::Master;
use crate::properties::scope::{Global, Output, Wildcard};
use crate::properties::selector::{
    AggregateDevicePropertyFullSubDeviceList, DevicePropertyDeviceUID,
    DevicePropertyNominalSampleRate, HardwarePropertyDevices, HardwarePropertyPlugInForBundleID,
    PlugInCreateAggregateDevice, PlugInDestroyAggregateDevice,
};
use crate::properties::SYSTEM_OBJECT;
use crate::protocol::{
    AudioValueTranslationView, Float64, PayloadKind, PayloadView, RegionView, ReplyView,
    RequestView, DEVICE_ID_SIZE,
};

verus! {

/// The status with which the model turns down an operation on an object it
/// does not have, or an operation it does not know.
pub const BAD_OBJECT: i32 = 0x216f_626a;

/// One device as the model holds it.
pub struct DeviceModel {
    /// The identifier of the device.
    pub id: u32,
    /// The string that identifies the device across restarts.
    pub uid: Seq<char>,
    /// The sub-device list, which is empty on a device that is no aggregate.
    pub sub_devices: Seq<Seq<char>>,
    /// The nominal sample rate.
    pub nominal_rate: Float64,
}

/// The audio subsystem as the model holds it.
pub struct Hardware {
    /// The plug-in that makes and destroys aggregate devices.
    pub plugin: u32,
    /// The devices, in the order in which they are reported.
    pub devices: Seq<DeviceModel>,
    /// The live callback registrations, each a device and a registration
    /// identifier.
    pub registrations: Set<(u32, u64)>,
    /// The registrations whose hardware clock runs.
    pub running: Set<(u32, u64)>,
    /// The identifier that the next device made will get.
    pub next_device: u32,
    /// The identifier that the next registration will get.
    pub next_registration: u64,
}

impl Hardware {
    /// Whether the device at `i` is the one that `id` names.
    pub open spec fn is_at(self, id: u32, i: int) -> bool {
        0 <= i < self.devices.len() && self.devices[i].id == id
    }

    /// Whether the model has a device that `id` names.
    pub open spec fn has(self, id: u32) -> bool {
        exists|i: int| self.is_at(id, i)
    }

    /// The place of the device that `id` names.
    pub open spec fn place(self, id: u32) -> int {
        choose|i: int| self.is_at(id, i)
    }

    /// The device that `id` names.
    pub open spec fn device(self, id: u32) -> DeviceModel {
        self.devices[self.place(id)]
    }

    /// Whether the model is in order: no two devices share an identifier,
    /// every device has an identifier that stands for an object and that
    /// is lower than the one the next device will get, which stands for an
    /// object too, and the list of all identifiers fits a size in bytes;
    /// every live registration has an identifier lower than the one the
    /// next registration will get, and only live registrations run.
    pub open spec fn wf(self) -> bool {
        &&& forall|i: int, j: int|
            0 <= i < j < self.devices.len() ==> (#[trigger] self.devices[i]).id != (
            #[trigger] self.devices[j]).id
        &&& forall|i: int|
            0 <= i < self.devices.len() ==> OBJECT_UNKNOWN < (#[trigger] self.devices[i]).id
                < self.next_device
        &&& OBJECT_UNKNOWN < self.next_device
        &&& self.devices.len() * DEVICE_ID_SIZE <= u32::MAX
        &&& forall|r: (u32, u64)| #[trigger]
            self.registrations.contains(r) ==> r.1 < self.next_registration
        &&& forall|r: (u32, u64)| #[trigger]
            self.running.contains(r) ==> self.registrations.contains(r)
    }

    /// How many handles the model writes into a list with room for
    /// `capacity` of them: one for each device, as far as there is room.
    pub open spec fn fitting(self, capacity: usize) -> nat {
        if self.devices.len() <= capacity {
            self.devices.len()
        } else {
            capacity as nat
        }
    }

    /// The handles that the model writes into a list with room for
    /// `capacity` of them: those of its devices, in order, as far as there
    /// is room.
    pub open spec fn handles(self, capacity: usize) -> Seq<CADevice> {
        Seq::new(self.fitting(capacity), |i: int| CADevice(self.devices[i].id))
    }

    /// The model with the device at place `i` changed to `device`.
    pub open spec fn with_device(self, i: int, device: DeviceModel) -> Hardware {
        Hardware { devices: self.devices.update(i, device), ..self }
    }

    /// The model without the device at place `i`.
    pub open spec fn without_device(self, i: int) -> Hardware {
        Hardware { devices: self.devices.remove(i), ..self }
    }
}

/// The text that a description holds under `key`, and the empty text where
/// it holds none.
pub open spec fn described(description: Seq<CFEntryView>, key: Seq<char>) -> Seq<char>
    decreases description.len(),
{
    if description.len() == 0 {
        Seq::empty()
    } else if description[0].0 == key {
        match description[0].1 {
            CFValueView::String(s) => s,
            CFValueView::Number(_) => Seq::empty(),
        }
    } else {
        described(description.skip(1), key)
    }
}

/// A reply that reports success and carries `data`.
pub open spec fn success(size: u32, data: PayloadView) -> ReplyView {
    ReplyView { status: NO_ERR, size, data }
}

/// A reply that reports that the object or the operation is unknown.
pub open spec fn refusal() -> ReplyView {
    ReplyView { status: BAD_OBJECT, size: 0, data: PayloadView::Nothing }
}

/// How the model answers a size probe.
pub open spec fn respond_size(hw: Hardware, object: u32, address: crate::protocol::PropertyAddress)
    -> (Hardware, ReplyView) {
    if object == SYSTEM_OBJECT && address == address_of::<
        Master,
        Wildcard,
        HardwarePropertyDevices,
    >() {
        (hw, success((hw.devices.len() * DEVICE_ID_SIZE) as u32, PayloadView::Nothing))
    } else {
        (hw, refusal())
    }
}

/// How the model answers a query.
pub open spec fn respond_query(
    hw: Hardware,
    object: u32,
    address: crate::protocol::PropertyAddress,
    qualifier: Option<Seq<CFEntryView>>,
    region: RegionView,
) -> (Hardware, ReplyView) {
    if object == SYSTEM_OBJECT && address == address_of::<
        Master,
        Global,
        HardwarePropertyPlugInForBundleID,
    >() {
        match region {
            RegionView::Filled(PayloadView::Translation(t)) => (
                hw,
                success(
                    0,
                    PayloadView::Translation(
                        AudioValueTranslationView { input: t.input, output: hw.plugin },
                    ),
                ),
            ),
            _ => (hw, refusal()),
        }
    } else if object == SYSTEM_OBJECT && address == address_of::<
        Master,
        Wildcard,
        HardwarePropertyDevices,
    >() {
        match region {
            RegionView::Blank { kind: PayloadKind::DeviceList, capacity } => (
                hw,
                success(
                    (hw.fitting(capacity) * DEVICE_ID_SIZE) as u32,
                    PayloadView::DeviceList(hw.handles(capacity)),
                ),
            ),
            _ => (hw, refusal()),
        }
    } else if address == address_of::<Master, Output, DevicePropertyDeviceUID>() {
        if hw.has(object) && region.kind() == PayloadKind::String {
            (hw, success(0, PayloadView::String(hw.device(object).uid)))
        } else {
            (hw, refusal())
        }
    } else if address == address_of::<Master, Global, AggregateDevicePropertyFullSubDeviceList>() {
        if hw.has(object) && region.kind() == PayloadKind::Array {
            (hw, success(0, PayloadView::Array(hw.device(object).sub_devices)))
        } else {
            (hw, refusal())
        }
    } else if address == address_of::<Master, Wildcard, DevicePropertyNominalSampleRate>() {
        if hw.has(object) && region.kind() == PayloadKind::Float64 {
            (hw, success(0, PayloadView::Float64(hw.device(object).nominal_rate)))
        } else {
            (hw, refusal())
        }
    } else if object == hw.plugin && address == address_of::<
        Master,
        Global,
        PlugInCreateAggregateDevice,
    >() {
        match (qualifier, region) {
            (
                Some(description),
                RegionView::Blank { kind: PayloadKind::Device, .. },
            ) if hw.next_device < u32::MAX && (hw.devices.len() + 1) * DEVICE_ID_SIZE
                <= u32::MAX => (
                Hardware {
                    devices: hw.devices.push(
                        DeviceModel {
                            id: hw.next_device,
                            uid: described(description, "uid"@),
                            sub_devices: Seq::empty(),
                            nominal_rate: Float64 { bits: 0 },
                        },
                    ),
                    next_device: (hw.next_device + 1) as u32,
                    ..hw
                },
                success(0, PayloadView::Device(CADevice(hw.next_device))),
            ),
            _ => (hw, refusal()),
        }
    } else if object == hw.plugin && address == address_of::<
        Master,
        Global,
        PlugInDestroyAggregateDevice,
    >() {
        match region {
            RegionView::Filled(PayloadView::Device(d)) => if hw.has(d.0) {
                (hw.without_device(hw.place(d.0)), success(0, PayloadView::Device(d)))
            } else {
                (hw, refusal())
            },
            _ => (hw, refusal()),
        }
    } else {
        (hw, refusal())
    }
}

/// How the model answers a write.
pub open spec fn respond_write(
    hw: Hardware,
    object: u32,
    address: crate::protocol::PropertyAddress,
    value: PayloadView,
) -> (Hardware, ReplyView) {
    if !hw.has(object) {
        (hw, refusal())
    } else if address == address_of::<Master, Global, AggregateDevicePropertyFullSubDeviceList>() {
        match value {
            PayloadView::Array(list) => (
                hw.with_device(
                    hw.place(object),
                    DeviceModel { sub_devices: list, ..hw.device(object) },
                ),
                success(0, PayloadView::Nothing),
            ),
            _ => (hw, refusal()),
        }
    } else if address == address_of::<Master, Wildcard, DevicePropertyNominalSampleRate>() {
        match value {
            PayloadView::Float64(rate) => (
                hw.with_device(
                    hw.place(object),
                    DeviceModel { nominal_rate: rate, ..hw.device(object) },
                ),
                success(0, PayloadView::Nothing),
            ),
            _ => (hw, refusal()),
        }
    } else {
        (hw, refusal())
    }
}

/// How the model answers a request: the model after it, and the reply.
pub open spec fn respond(hw: Hardware, request: RequestView) -> (Hardware, ReplyView) {
    match request {
        RequestView::PropertyDataSize { object, address } => respond_size(hw, object, address),
        RequestView::PropertyData { object, address, qualifier, region, .. } => respond_query(
            hw,
            object,
            address,
            qualifier,
            region,
        ),
        RequestView::SetPropertyData { object, address, value, .. } => respond_write(
            hw,
            object,
            address,
            value,
        ),
        RequestView::CreateIOProcID { device } => if hw.has(device) {
            (
                Hardware {
                    registrations: hw.registrations.insert((device, hw.next_registration)),
                    next_registration: (hw.next_registration + 1) as u64,
                    ..hw
                },
                success(0, PayloadView::ProcID(hw.next_registration)),
            )
        } else {
            (hw, refusal())
        },
        RequestView::DeviceStart { device, proc_id } => if hw.registrations.contains(
            (device, proc_id),
        ) {
            (
                Hardware { running: hw.running.insert((device, proc_id)), ..hw },
                success(0, PayloadView::Nothing),
            )
        } else {
            (hw, refusal())
        },
        RequestView::DeviceStop { device, proc_id } => if hw.registrations.contains(
            (device, proc_id),
        ) {
            (
                Hardware { running: hw.running.remove((device, proc_id)), ..hw },
                success(0, PayloadView::Nothing),
            )
        } else {
            (hw, refusal())
        },
        RequestView::DestroyIOProcID { device, proc_id } => if hw.registrations.contains(
            (device, proc_id),
        ) {
            (
                Hardware {
                    registrations: hw.registrations.remove((device, proc_id)),
                    running: hw.running.remove((device, proc_id)),
                    ..hw
                },
                success(0, PayloadView::Nothing),
            )
        } else {
            (hw, refusal())
        },
    }
}

} // verus!
