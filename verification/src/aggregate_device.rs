//! The private aggregate device that joins one input device and one output
//! device, and the machines that attach to it, rewire it and destroy it.
use vstd::prelude::*;
use crate::backend::CABackend;
use crate::cf::{
    CFEntryView, CFError, CFMutableArray, CFMutableDictionary, CFNumber, CFString, CFValue,
    CFValueView,
};
use crate::device::{CADevice, OBJECT_UNKNOWN};
use crate::properties::element::Master;
use crate::properties::scope::{Global, Output, Wildcard};
use crate::properties::selector::{
    AggregateDevicePropertyFullSubDeviceList, DevicePropertyDeviceUID, HardwarePropertyDevices,
    HardwarePropertyPlugInForBundleID, PlugInCreateAggregateDevice, PlugInDestroyAggregateDevice,
};
use crate::properties::{address_of, get, get_qualified, translate, SYSTEM_OBJECT};
use crate::protocol::{
    answers, reading, reading_qualified, translating, writing, AudioValueTranslation,
    AudioValueTranslationView, Machine, PayloadKind, PayloadView, Reply, ReplyView, Request, RequestView,
    Step, Teardown, Transfer, TransferView,
};

verus! {

/// The text of the bundle identifier of the plug-in that makes aggregate
/// devices.
pub open spec fn plugin_bundle_id() -> Seq<char> {
    "com.apple.audio.CoreAudio"@
}

/// The entries of the dictionary that describes the aggregate device to
/// create: its name for people, the string that identifies it, and the mark
/// that keeps it out of the device lists that people see.
pub open spec fn aggregate_description(uid: Seq<char>) -> Seq<CFEntryView> {
    seq![
        ("name"@, CFValueView::String("Audioshop aggregate device"@)),
        ("uid"@, CFValueView::String(uid)),
        ("private"@, CFValueView::Number(1)),
    ]
}

/// The list of sub-devices of an aggregate device that joins `input` and
/// `output`: the input's identifying string alone where the two are one
/// device, and else the input's followed by the output's.
pub open spec fn sub_device_list(
    input: CADevice,
    output: CADevice,
    input_uid: Seq<char>,
    output_uid: Seq<char>,
) -> Seq<Seq<char>> {
    if input == output {
        seq![input_uid]
    } else {
        seq![input_uid, output_uid]
    }
}

/// How the plug-in lookup begins.
pub open spec fn plugin_lookup() -> TransferView {
    translating(
        SYSTEM_OBJECT,
        address_of::<Master, Global, HardwarePropertyPlugInForBundleID>(),
        PayloadView::Translation(
            AudioValueTranslationView { input: plugin_bundle_id(), output: OBJECT_UNKNOWN },
        ),
    )
}

/// How the listing of all devices begins.
pub open spec fn device_listing() -> TransferView {
    reading(
        PayloadKind::DeviceList,
        SYSTEM_OBJECT,
        address_of::<Master, Wildcard, HardwarePropertyDevices>(),
    )
}

/// How the read of a device's identifying string begins.
pub open spec fn uid_read(device: CADevice) -> TransferView {
    reading(PayloadKind::String, device.0, address_of::<Master, Output, DevicePropertyDeviceUID>())
}

/// How the creation of an aggregate device that `uid` identifies begins.
pub open spec fn creation(plugin: u32, uid: Seq<char>) -> TransferView {
    reading_qualified(
        PayloadKind::Device,
        plugin,
        address_of::<Master, Global, PlugInCreateAggregateDevice>(),
        aggregate_description(uid),
    )
}

/// How the write of a sub-device list to the aggregate device begins.
pub open spec fn list_write(device: u32, list: Seq<Seq<char>>) -> TransferView {
    writing(
        device,
        address_of::<Master, Global, AggregateDevicePropertyFullSubDeviceList>(),
        PayloadView::Array(list),
    )
}

/// How the destruction of the aggregate device begins.
pub open spec fn destruction(plugin: u32, device: CADevice) -> TransferView {
    translating(
        plugin,
        address_of::<Master, Global, PlugInDestroyAggregateDevice>(),
        PayloadView::Device(device),
    )
}

/// Begins the plug-in lookup.
pub fn get_audio_plugin_id() -> (t: Transfer)
    ensures
        t@ == plugin_lookup(),
{
    let translation = AudioValueTranslation {
        input: CFString::new("com.apple.audio.CoreAudio"),
        output: OBJECT_UNKNOWN,
    };
    translate(Master, Global, HardwarePropertyPlugInForBundleID, SYSTEM_OBJECT, translation)
}

/// Begins the creation, by the plug-in `audio_plugin_id`, of an aggregate
/// device that `uid` identifies.
pub fn create_aggregate_device(audio_plugin_id: u32, uid: CFString) -> (t: Transfer)
    ensures
        t@ == creation(audio_plugin_id, uid@),
{
    let mut aggregate_dict = CFMutableDictionary::new();
    proof {
        reveal_strlit("name");
        reveal_strlit("uid");
        reveal_strlit("private");
    }
    aggregate_dict.insert(
        CFString::new("name"),
        CFValue::String(CFString::new("Audioshop aggregate device")),
    );
    assert(aggregate_dict@[0].0 == "name"@);
    aggregate_dict.insert(CFString::new("uid"), CFValue::String(uid));
    assert(aggregate_dict@[1].0 == "uid"@);
    aggregate_dict.insert(CFString::new("private"), CFValue::Number(CFNumber::new(1)));
    assert(aggregate_dict@ =~= aggregate_description(uid@));
    get_qualified(
        Master,
        Global,
        PlugInCreateAggregateDevice,
        aggregate_dict.clone_immutable(),
        audio_plugin_id,
    )
}

/// The mathematical value of a [`Refresh`].
pub enum RefreshView {
    /// Waiting for the identifying string of the input device.
    InputUid { device: u32, input: CADevice, output: CADevice, transfer: TransferView },
    /// Holding the input's string, waiting for that of the output device.
    OutputUid { device: u32, first: Seq<char>, output: CADevice, transfer: TransferView },
    /// Waiting for the write of the list to end.
    Writing { transfer: TransferView },
}

impl RefreshView {
    /// A refresh of the sub-device list of `device` at its beginning.
    pub open spec fn begin(device: u32, input: CADevice, output: CADevice) -> RefreshView {
        RefreshView::InputUid { device, input, output, transfer: uid_read(input) }
    }

    /// The property operation in progress.
    pub open spec fn transfer(self) -> TransferView {
        match self {
            RefreshView::InputUid { transfer, .. } => transfer,
            RefreshView::OutputUid { transfer, .. } => transfer,
            RefreshView::Writing { transfer } => transfer,
        }
    }

    /// The request that the machine wants performed.
    pub open spec fn pending(self) -> RequestView {
        self.transfer().pending
    }

    /// What the machine does with a reply. A failure of any step ends it
    /// with that step's error. The input's string leads to the write where
    /// input and output are one device, and else to the read of the
    /// output's string, which leads to the write. The list written is
    /// [`sub_device_list`] of the strings read. The end of the write ends
    /// the machine.
    pub open spec fn advance(self, reply: ReplyView) -> Step<RefreshView, ()> {
        match self.transfer().advance(reply) {
            Step::Continue(t) => Step::Continue(
                match self {
                    RefreshView::InputUid { device, input, output, .. } => RefreshView::InputUid {
                        device,
                        input,
                        output,
                        transfer: t,
                    },
                    RefreshView::OutputUid { device, first, output, .. } => {
                        RefreshView::OutputUid { device, first, output, transfer: t }
                    },
                    RefreshView::Writing { .. } => RefreshView::Writing { transfer: t },
                },
            ),
            Step::Done(p) => match self {
                RefreshView::InputUid { device, input, output, .. } => Step::Continue(
                    if input == output {
                        RefreshView::Writing {
                            transfer: list_write(
                                device,
                                sub_device_list(input, output, p.text(), p.text()),
                            ),
                        }
                    } else {
                        RefreshView::OutputUid {
                            device,
                            first: p.text(),
                            output,
                            transfer: uid_read(output),
                        }
                    },
                ),
                RefreshView::OutputUid { device, first, output, .. } => Step::Continue(
                    RefreshView::Writing { transfer: list_write(device, seq![first, p.text()]) },
                ),
                RefreshView::Writing { .. } => Step::Done(()),
            },
            Step::Failed(e) => Step::Failed(e),
            Step::Fatal(t, e) => Step::Fatal(t, e),
        }
    }

    /// Whether the property operation in progress is the one that the
    /// state calls for.
    pub open spec fn wf(self) -> bool {
        match self {
            RefreshView::InputUid { input, transfer, .. } => transfer == uid_read(input),
            RefreshView::OutputUid { output, transfer, .. } => transfer == uid_read(output),
            RefreshView::Writing { transfer } => {
                &&& transfer.pending is SetPropertyData
                &&& transfer.kind == PayloadKind::Nothing
            },
        }
    }

}

enum RefreshState {
    InputUid { device: u32, input: CADevice, output: CADevice, transfer: Transfer },
    OutputUid { device: u32, first: CFString, output: CADevice, transfer: Transfer },
    Writing { transfer: Transfer },
}

/// The rewiring of the aggregate device in progress: its sub-device list is
/// being built from the identifying strings of the input and output
/// devices, and written.
pub struct Refresh {
    state: RefreshState,
}

impl View for Refresh {
    type V = RefreshView;

    closed spec fn view(&self) -> RefreshView {
        match self.state {
            RefreshState::InputUid { device, input, output, transfer } => RefreshView::InputUid {
                device,
                input,
                output,
                transfer: transfer@,
            },
            RefreshState::OutputUid { device, first, output, transfer } => RefreshView::OutputUid {
                device,
                first: first@,
                output,
                transfer: transfer@,
            },
            RefreshState::Writing { transfer } => RefreshView::Writing { transfer: transfer@ },
        }
    }
}

/// Begins the write of the sub-device list that joins `input` and `output`
/// to the aggregate device `device`.
fn write_sub_device_list(device: u32, first: CFString, second: Option<CFString>) -> (t: Transfer)
    ensures
        t@ == list_write(
            device,
            match second {
                Some(s) => seq![first@, s@],
                None => seq![first@],
            },
        ),
{
    let mut array = CFMutableArray::new();
    array.push(first);
    match second {
        Some(s) => {
            array.push(s);
            assert(array@ =~= seq![first@, s@]);
        },
        None => {
            assert(array@ =~= seq![first@]);
        },
    }
    crate::properties::set(
        Master,
        Global,
        AggregateDevicePropertyFullSubDeviceList,
        device,
        array.clone_immutable(),
    )
}

impl Refresh {
    #[verifier::type_invariant]
    spec fn inv(self) -> bool {
        self@.wf()
    }

    /// Begins the refresh of the sub-device list of the aggregate device
    /// `device`, which is to join `input` and `output`.
    pub fn begin(device: u32, input: CADevice, output: CADevice) -> (r: Self)
        ensures
            r@ == RefreshView::begin(device, input, output),
    {
        Refresh {
            state: RefreshState::InputUid { device, input, output, transfer: input.uid() },
        }
    }

    /// The request that the machine wants performed.
    pub fn request(&self) -> (r: &Request)
        ensures
            r@ == self@.pending(),
    {
        match &self.state {
            RefreshState::InputUid { transfer, .. } => transfer.request(),
            RefreshState::OutputUid { transfer, .. } => transfer.request(),
            RefreshState::Writing { transfer } => transfer.request(),
        }
    }

    /// Takes the reply to the pending request.
    pub fn advance(self, reply: Reply) -> (step: Step<Refresh, ()>)
        requires
            answers(reply@, self@.pending()),
        ensures
            step@ == self@.advance(reply@),
    {
        proof {
            use_type_invariant(&self);
        }
        match self.state {
            RefreshState::InputUid { device, input, output, transfer } => {
                match transfer.advance(reply) {
                    Step::Continue(_) => unreached(),
                    Step::Done(p) => {
                        let first = p.into_string();
                        if input.0 == output.0 {
                            Step::Continue(
                                Refresh {
                                    state: RefreshState::Writing {
                                        transfer: write_sub_device_list(device, first, None),
                                    },
                                },
                            )
                        } else {
                            Step::Continue(
                                Refresh {
                                    state: RefreshState::OutputUid {
                                        device,
                                        first,
                                        output,
                                        transfer: output.uid(),
                                    },
                                },
                            )
                        }
                    },
                    Step::Failed(e) => Step::Failed(e),
                    Step::Fatal(t, e) => Step::Fatal(t, e),
                }
            },
            RefreshState::OutputUid { device, first, output, transfer } => {
                match transfer.advance(reply) {
                    Step::Continue(_) => unreached(),
                    Step::Done(p) => {
                        let second = p.into_string();
                        Step::Continue(
                            Refresh {
                                state: RefreshState::Writing {
                                    transfer: write_sub_device_list(device, first, Some(second)),
                                },
                            },
                        )
                    },
                    Step::Failed(e) => Step::Failed(e),
                    Step::Fatal(t, e) => Step::Fatal(t, e),
                }
            },
            RefreshState::Writing { transfer } => {
                match transfer.advance(reply) {
                    Step::Continue(_) => unreached(),
                    Step::Done(_) => Step::Done(()),
                    Step::Failed(e) => Step::Failed(e),
                    Step::Fatal(t, e) => Step::Fatal(t, e),
                }
            },
        }
    }
}

/// The mathematical value of a [`Destroy`].
pub struct DestroyView {
    pub transfer: TransferView,
}

impl DestroyView {
    /// The destruction of the aggregate device `device` by the plug-in
    /// `plugin` at its beginning.
    pub open spec fn begin(plugin: u32, device: CADevice) -> DestroyView {
        DestroyView { transfer: destruction(plugin, device) }
    }

    /// The request that the machine wants performed.
    pub open spec fn pending(self) -> RequestView {
        self.transfer.pending
    }

    /// What the machine does with a reply: it ends, and a failure is one
    /// that leaves nothing to fall back on.
    pub open spec fn advance(self, reply: ReplyView) -> Step<DestroyView, ()> {
        match self.transfer.advance(reply) {
            Step::Continue(t) => Step::Continue(DestroyView { transfer: t }),
            Step::Done(_) => Step::Done(()),
            Step::Failed(e) => Step::Fatal(Teardown::Destroy, e),
            Step::Fatal(t, e) => Step::Fatal(t, e),
        }
    }

    /// Whether the property operation in progress is a translation.
    pub open spec fn wf(self) -> bool {
        self.transfer.wf() && self.transfer.is_last()
    }
}

/// The destruction of an aggregate device in progress.
pub struct Destroy {
    transfer: Transfer,
}

impl View for Destroy {
    type V = DestroyView;

    closed spec fn view(&self) -> DestroyView {
        DestroyView { transfer: self.transfer@ }
    }
}

impl Destroy {
    #[verifier::type_invariant]
    spec fn inv(self) -> bool {
        self@.wf()
    }

    /// Begins the destruction of the aggregate device `device` by the
    /// plug-in `plugin`.
    pub fn begin(plugin: u32, device: CADevice) -> (r: Self)
        ensures
            r@ == DestroyView::begin(plugin, device),
    {
        Destroy { transfer: translate(Master, Global, PlugInDestroyAggregateDevice, plugin, device) }
    }

    /// The request that the machine wants performed.
    pub fn request(&self) -> (r: &Request)
        ensures
            r@ == self@.pending(),
    {
        self.transfer.request()
    }

    fn into_transfer(self) -> (t: Transfer)
        ensures
            t@ == self@.transfer,
    {
        self.transfer
    }

    /// Takes the reply to the pending request.
    pub fn advance(self, reply: Reply) -> (step: Step<Destroy, ()>)
        requires
            answers(reply@, self@.pending()),
        ensures
            step@ == self@.advance(reply@),
    {
        proof {
            use_type_invariant(&self);
        }
        match self.transfer.advance(reply) {
            Step::Continue(_) => unreached(),
            Step::Done(_) => Step::Done(()),
            Step::Failed(e) => Step::Fatal(Teardown::Destroy, e),
            Step::Fatal(t, e) => Step::Fatal(t, e),
        }
    }
}

/// The mathematical value of an [`AggregateDevice`].
pub struct AggregateDeviceView {
    /// The plug-in that made the virtual device, and that alone can destroy
    /// it.
    pub plugin_id: u32,
    /// The virtual device.
    pub device: CADevice,
    /// The device that the virtual device takes its input from.
    pub input: CADevice,
    /// The device that the virtual device sends its output to.
    pub output: CADevice,
}

/// A private virtual device that joins an input and an output device. The
/// virtual device is owned: whoever holds this value is the one to destroy
/// it.
#[derive(Debug, PartialEq, Eq)]
pub struct AggregateDevice {
    plugin_id: u32,
    device: CADevice,
    input: CADevice,
    output: CADevice,
}

impl View for AggregateDevice {
    type V = AggregateDeviceView;

    closed spec fn view(&self) -> AggregateDeviceView {
        AggregateDeviceView {
            plugin_id: self.plugin_id,
            device: self.device,
            input: self.input,
            output: self.output,
        }
    }
}

impl AggregateDevice {
    /// Begins the attachment to the aggregate device of `backend`, which is
    /// to join `input` and `output`.
    pub fn new(backend: &CABackend, input: CADevice, output: CADevice) -> (r: Setup)
        ensures
            r@ == SetupView::begin(backend@, input, output),
    {
        Setup {
            state: SetupState::FindingPlugin {
                uid: backend.aggregate_device_uid().clone(),
                input,
                output,
                transfer: get_audio_plugin_id(),
            },
        }
    }

    /// The identifier of the plug-in that made the virtual device.
    pub fn plugin_id(&self) -> (id: u32)
        ensures
            id == self@.plugin_id,
    {
        self.plugin_id
    }

    /// The virtual device.
    pub fn device(&self) -> (d: CADevice)
        ensures
            d == self@.device,
    {
        self.device
    }

    /// The device that the virtual device takes its input from.
    pub fn input(&self) -> (d: CADevice)
        ensures
            d == self@.input,
    {
        self.input
    }

    /// The device that the virtual device sends its output to.
    pub fn output(&self) -> (d: CADevice)
        ensures
            d == self@.output,
    {
        self.output
    }

    /// A second value for the same virtual device, for a reader that only
    /// looks at it.
    pub(crate) fn mirror(&self) -> (r: Self)
        ensures
            r@ == self@,
    {
        AggregateDevice {
            plugin_id: self.plugin_id,
            device: self.device,
            input: self.input,
            output: self.output,
        }
    }

    /// Makes `input` the input device, and begins the refresh of the
    /// sub-device list that brings the hardware in line. Until that refresh
    /// has ended well, the routing of the hardware is not known.
    pub fn set_input(&mut self, input: CADevice) -> (r: Refresh)
        ensures
            final(self)@ == (AggregateDeviceView { input, ..old(self)@ }),
            r@ == RefreshView::begin(old(self)@.device.0, input, old(self)@.output),
    {
        self.input = input;
        self.refresh_sub_device_array()
    }

    /// Makes `output` the output device, and begins the refresh of the
    /// sub-device list that brings the hardware in line. Until that refresh
    /// has ended well, the routing of the hardware is not known.
    pub fn set_output(&mut self, output: CADevice) -> (r: Refresh)
        ensures
            final(self)@ == (AggregateDeviceView { output, ..old(self)@ }),
            r@ == RefreshView::begin(old(self)@.device.0, old(self)@.input, output),
    {
        self.output = output;
        self.refresh_sub_device_array()
    }

    /// Begins the refresh of the sub-device list of the virtual device from
    /// the input and output devices as they stand.
    pub fn refresh_sub_device_array(&self) -> (r: Refresh)
        ensures
            r@ == RefreshView::begin(self@.device.0, self@.input, self@.output),
    {
        Refresh::begin(self.device.id(), self.input, self.output)
    }

    /// Gives the virtual device up, and begins its destruction.
    pub fn destroy(self) -> (r: Destroy)
        ensures
            r@ == DestroyView::begin(self@.plugin_id, self@.device),
    {
        Destroy::begin(self.plugin_id, self.device)
    }
}

/// The mathematical value of a [`Setup`].
pub enum SetupView {
    /// Waiting for the plug-in that makes aggregate devices.
    FindingPlugin { uid: Seq<char>, input: CADevice, output: CADevice, transfer: TransferView },
    /// Waiting for the list of all devices.
    Listing {
        uid: Seq<char>,
        plugin: u32,
        input: CADevice,
        output: CADevice,
        transfer: TransferView,
    },
    /// Waiting for the identifying string of the device at `index`, the
    /// devices before it having turned out to be others.
    Scanning {
        uid: Seq<char>,
        plugin: u32,
        input: CADevice,
        output: CADevice,
        devices: Seq<CADevice>,
        index: int,
        transfer: TransferView,
    },
    /// No device was the one looked for: waiting for the plug-in to make it.
    Creating { plugin: u32, input: CADevice, output: CADevice, transfer: TransferView },
    /// The virtual device is at hand: waiting for its sub-device list to be
    /// refreshed.
    Refreshing { aggregate: AggregateDeviceView, refresh: RefreshView },
    /// The refresh failed with `error`: waiting for the virtual device to be
    /// destroyed.
    Destroying { error: CFError, transfer: TransferView },
}

impl SetupView {
    /// The attachment to the aggregate device that `uid` identifies, which
    /// is to join `input` and `output`, at its beginning.
    pub open spec fn begin(uid: Seq<char>, input: CADevice, output: CADevice) -> SetupView {
        SetupView::FindingPlugin { uid, input, output, transfer: plugin_lookup() }
    }

    /// The state in which the devices from `index` on are still to be
    /// examined: the read of the string of the device at `index`, or, where
    /// the list is exhausted, the creation of the device.
    pub open spec fn scan(
        uid: Seq<char>,
        plugin: u32,
        input: CADevice,
        output: CADevice,
        devices: Seq<CADevice>,
        index: int,
    ) -> SetupView {
        if 0 <= index < devices.len() {
            SetupView::Scanning {
                uid,
                plugin,
                input,
                output,
                devices,
                index,
                transfer: uid_read(devices[index]),
            }
        } else {
            SetupView::Creating { plugin, input, output, transfer: creation(plugin, uid) }
        }
    }

    /// The state in which `device` has been taken for the virtual device,
    /// and its sub-device list is refreshed whatever it held before.
    pub open spec fn attach(
        plugin: u32,
        device: CADevice,
        input: CADevice,
        output: CADevice,
    ) -> SetupView {
        SetupView::Refreshing {
            aggregate: AggregateDeviceView { plugin_id: plugin, device, input, output },
            refresh: RefreshView::begin(device.0, input, output),
        }
    }

    /// The request that the machine wants performed.
    pub open spec fn pending(self) -> RequestView {
        match self {
            SetupView::FindingPlugin { transfer, .. } => transfer.pending,
            SetupView::Listing { transfer, .. } => transfer.pending,
            SetupView::Scanning { transfer, .. } => transfer.pending,
            SetupView::Creating { transfer, .. } => transfer.pending,
            SetupView::Refreshing { refresh, .. } => refresh.pending(),
            SetupView::Destroying { transfer, .. } => transfer.pending,
        }
    }

    /// What the machine does with a reply.
    ///
    /// The plug-in found, the devices are listed. The listed devices are
    /// examined in the order of the list: the first whose identifying string
    /// is `uid` is taken for the virtual device, and no device is created;
    /// where none is, the plug-in is asked to create one. In both cases the
    /// sub-device list is then refreshed. A failure before the virtual
    /// device is at hand ends the machine with that error. A failure of the
    /// refresh leads to the destruction of the virtual device, after which
    /// the machine ends with the error of the refresh; where the
    /// destruction fails too, that is fatal.
    pub open spec fn advance(self, reply: ReplyView) -> Step<SetupView, AggregateDeviceView> {
        match self {
            SetupView::FindingPlugin { uid, input, output, transfer } => {
                match transfer.advance(reply) {
                    Step::Continue(t) => Step::Continue(
                        SetupView::FindingPlugin { uid, input, output, transfer: t },
                    ),
                    Step::Done(p) => Step::Continue(
                        SetupView::Listing {
                            uid,
                            plugin: p.translated(),
                            input,
                            output,
                            transfer: device_listing(),
                        },
                    ),
                    Step::Failed(e) => Step::Failed(e),
                    Step::Fatal(t, e) => Step::Fatal(t, e),
                }
            },
            SetupView::Listing { uid, plugin, input, output, transfer } => {
                match transfer.advance(reply) {
                    Step::Continue(t) => Step::Continue(
                        SetupView::Listing { uid, plugin, input, output, transfer: t },
                    ),
                    Step::Done(p) => Step::Continue(
                        SetupView::scan(uid, plugin, input, output, p.devices(), 0),
                    ),
                    Step::Failed(e) => Step::Failed(e),
                    Step::Fatal(t, e) => Step::Fatal(t, e),
                }
            },
            SetupView::Scanning { uid, plugin, input, output, devices, index, transfer } => {
                match transfer.advance(reply) {
                    Step::Continue(t) => Step::Continue(
                        SetupView::Scanning {
                            uid,
                            plugin,
                            input,
                            output,
                            devices,
                            index,
                            transfer: t,
                        },
                    ),
                    Step::Done(p) => Step::Continue(
                        if p.text() == uid {
                            SetupView::attach(plugin, devices[index], input, output)
                        } else {
                            SetupView::scan(uid, plugin, input, output, devices, index + 1)
                        },
                    ),
                    Step::Failed(e) => Step::Failed(e),
                    Step::Fatal(t, e) => Step::Fatal(t, e),
                }
            },
            SetupView::Creating { plugin, input, output, transfer } => {
                match transfer.advance(reply) {
                    Step::Continue(t) => Step::Continue(
                        SetupView::Creating { plugin, input, output, transfer: t },
                    ),
                    Step::Done(p) => Step::Continue(
                        SetupView::attach(plugin, p.device(), input, output),
                    ),
                    Step::Failed(e) => Step::Failed(e),
                    Step::Fatal(t, e) => Step::Fatal(t, e),
                }
            },
            SetupView::Refreshing { aggregate, refresh } => {
                match refresh.advance(reply) {
                    Step::Continue(r) => Step::Continue(
                        SetupView::Refreshing { aggregate, refresh: r },
                    ),
                    Step::Done(_) => Step::Done(aggregate),
                    Step::Failed(e) => Step::Continue(
                        SetupView::Destroying {
                            error: e,
                            transfer: destruction(aggregate.plugin_id, aggregate.device),
                        },
                    ),
                    Step::Fatal(t, e) => Step::Fatal(t, e),
                }
            },
            SetupView::Destroying { error, transfer } => {
                match transfer.advance(reply) {
                    Step::Continue(t) => Step::Continue(
                        SetupView::Destroying { error, transfer: t },
                    ),
                    Step::Done(_) => Step::Failed(error),
                    Step::Failed(e) => Step::Fatal(Teardown::Destroy, e),
                    Step::Fatal(t, e) => Step::Fatal(t, e),
                }
            },
        }
    }

    /// Whether the operation in progress is the one that the state calls
    /// for.
    pub open spec fn wf(self) -> bool {
        match self {
            SetupView::FindingPlugin { transfer, .. } => transfer == plugin_lookup(),
            SetupView::Listing { transfer, .. } => {
                &&& transfer.wf()
                &&& transfer.kind == PayloadKind::DeviceList
            },
            SetupView::Scanning { devices, index, transfer, .. } => {
                &&& 0 <= index < devices.len()
                &&& transfer == uid_read(devices[index])
            },
            SetupView::Creating { transfer, .. } => {
                &&& transfer.wf()
                &&& transfer.is_last()
                &&& transfer.kind == PayloadKind::Device
            },
            SetupView::Refreshing { refresh, .. } => refresh.wf(),
            SetupView::Destroying { transfer, .. } => transfer.wf() && transfer.is_last(),
        }
    }
}

enum SetupState {
    FindingPlugin { uid: CFString, input: CADevice, output: CADevice, transfer: Transfer },
    Listing { uid: CFString, plugin: u32, input: CADevice, output: CADevice, transfer: Transfer },
    Scanning {
        uid: CFString,
        plugin: u32,
        input: CADevice,
        output: CADevice,
        devices: Vec<CADevice>,
        index: usize,
        transfer: Transfer,
    },
    Creating { plugin: u32, input: CADevice, output: CADevice, transfer: Transfer },
    Refreshing { aggregate: AggregateDevice, refresh: Refresh },
    Destroying { error: CFError, transfer: Transfer },
}

/// The attachment to the aggregate device in progress: the device is being
/// found or else created, and wired to its input and output.
pub struct Setup {
    state: SetupState,
}

impl View for Setup {
    type V = SetupView;

    closed spec fn view(&self) -> SetupView {
        match self.state {
            SetupState::FindingPlugin { uid, input, output, transfer } => {
                SetupView::FindingPlugin { uid: uid@, input, output, transfer: transfer@ }
            },
            SetupState::Listing { uid, plugin, input, output, transfer } => SetupView::Listing {
                uid: uid@,
                plugin,
                input,
                output,
                transfer: transfer@,
            },
            SetupState::Scanning { uid, plugin, input, output, devices, index, transfer } => {
                SetupView::Scanning {
                    uid: uid@,
                    plugin,
                    input,
                    output,
                    devices: devices@,
                    index: index as int,
                    transfer: transfer@,
                }
            },
            SetupState::Creating { plugin, input, output, transfer } => SetupView::Creating {
                plugin,
                input,
                output,
                transfer: transfer@,
            },
            SetupState::Refreshing { aggregate, refresh } => SetupView::Refreshing {
                aggregate: aggregate@,
                refresh: refresh@,
            },
            SetupState::Destroying { error, transfer } => SetupView::Destroying {
                error,
                transfer: transfer@,
            },
        }
    }
}

impl Setup {
    #[verifier::type_invariant]
    spec fn inv(self) -> bool {
        self@.wf()
    }

    /// The state in which the devices from `index` on are still to be
    /// examined.
    fn scan(
        uid: CFString,
        plugin: u32,
        input: CADevice,
        output: CADevice,
        devices: Vec<CADevice>,
        index: usize,
    ) -> (r: Self)
        ensures
            r@ == SetupView::scan(uid@, plugin, input, output, devices@, index as int),
    {
        if index < devices.len() {
            let transfer = devices[index].uid();
            Setup {
                state: SetupState::Scanning { uid, plugin, input, output, devices, index, transfer },
            }
        } else {
            Setup {
                state: SetupState::Creating {
                    plugin,
                    input,
                    output,
                    transfer: create_aggregate_device(plugin, uid),
                },
            }
        }
    }

    /// The state in which `device` has been taken for the virtual device.
    fn attach(plugin: u32, device: CADevice, input: CADevice, output: CADevice) -> (r: Self)
        ensures
            r@ == SetupView::attach(plugin, device, input, output),
    {
        let aggregate = AggregateDevice { plugin_id: plugin, device, input, output };
        let refresh = aggregate.refresh_sub_device_array();
        Setup { state: SetupState::Refreshing { aggregate, refresh } }
    }

    /// The request that the machine wants performed.
    pub fn request(&self) -> (r: &Request)
        ensures
            r@ == self@.pending(),
    {
        match &self.state {
            SetupState::FindingPlugin { transfer, .. } => transfer.request(),
            SetupState::Listing { transfer, .. } => transfer.request(),
            SetupState::Scanning { transfer, .. } => transfer.request(),
            SetupState::Creating { transfer, .. } => transfer.request(),
            SetupState::Refreshing { refresh, .. } => refresh.request(),
            SetupState::Destroying { transfer, .. } => transfer.request(),
        }
    }

    /// Takes the reply to the pending request.
    pub fn advance(self, reply: Reply) -> (step: Step<Setup, AggregateDevice>)
        requires
            answers(reply@, self@.pending()),
        ensures
            step@ == self@.advance(reply@),
    {
        proof {
            use_type_invariant(&self);
        }
        match self.state {
            SetupState::FindingPlugin { uid, input, output, transfer } => {
                match transfer.advance(reply) {
                    Step::Continue(_) => unreached(),
                    Step::Done(p) => Step::Continue(
                        Setup {
                            state: SetupState::Listing {
                                uid,
                                plugin: p.into_translated(),
                                input,
                                output,
                                transfer: get(
                                    Master,
                                    Wildcard,
                                    HardwarePropertyDevices,
                                    SYSTEM_OBJECT,
                                ),
                            },
                        },
                    ),
                    Step::Failed(e) => Step::Failed(e),
                    Step::Fatal(t, e) => Step::Fatal(t, e),
                }
            },
            SetupState::Listing { uid, plugin, input, output, transfer } => {
                match transfer.advance(reply) {
                    Step::Continue(t) => Step::Continue(
                        Setup { state: SetupState::Listing { uid, plugin, input, output, transfer: t } },
                    ),
                    Step::Done(p) => Step::Continue(
                        Setup::scan(uid, plugin, input, output, p.into_devices(), 0),
                    ),
                    Step::Failed(e) => Step::Failed(e),
                    Step::Fatal(t, e) => Step::Fatal(t, e),
                }
            },
            SetupState::Scanning { uid, plugin, input, output, devices, index, transfer } => {
                match transfer.advance(reply) {
                    Step::Continue(_) => unreached(),
                    Step::Done(p) => {
                        assert(index < devices.len());
                        if p.into_string().same_text(&uid) {
                            Step::Continue(Setup::attach(plugin, devices[index], input, output))
                        } else {
                            Step::Continue(
                                Setup::scan(uid, plugin, input, output, devices, index + 1),
                            )
                        }
                    },
                    Step::Failed(e) => Step::Failed(e),
                    Step::Fatal(t, e) => Step::Fatal(t, e),
                }
            },
            SetupState::Creating { plugin, input, output, transfer } => {
                match transfer.advance(reply) {
                    Step::Continue(_) => unreached(),
                    Step::Done(p) => Step::Continue(
                        Setup::attach(plugin, p.into_device(), input, output),
                    ),
                    Step::Failed(e) => Step::Failed(e),
                    Step::Fatal(t, e) => Step::Fatal(t, e),
                }
            },
            SetupState::Refreshing { aggregate, refresh } => {
                match refresh.advance(reply) {
                    Step::Continue(r) => Step::Continue(
                        Setup { state: SetupState::Refreshing { aggregate, refresh: r } },
                    ),
                    Step::Done(_) => Step::Done(aggregate),
                    Step::Failed(e) => {
                        let destroy = aggregate.destroy();
                        Step::Continue(
                            Setup {
                                state: SetupState::Destroying {
                                    error: e,
                                    transfer: destroy.into_transfer(),
                                },
                            },
                        )
                    },
                    Step::Fatal(t, e) => Step::Fatal(t, e),
                }
            },
            SetupState::Destroying { error, transfer } => {
                match transfer.advance(reply) {
                    Step::Continue(_) => unreached(),
                    Step::Done(_) => Step::Failed(error),
                    Step::Failed(e) => Step::Fatal(Teardown::Destroy, e),
                    Step::Fatal(t, e) => Step::Fatal(t, e),
                }
            },
        }
    }
}

impl Machine for Refresh {
    type Output = ();

    open spec fn waits_on(&self) -> RequestView {
        self@.pending()
    }

    fn request(&self) -> (r: &Request) {
        self.request()
    }

    fn advance(self, reply: Reply) -> (step: Step<Self, ()>)
        ensures
            step@ == self@.advance(reply@),
    {
        self.advance(reply)
    }
}

impl Machine for Destroy {
    type Output = ();

    open spec fn waits_on(&self) -> RequestView {
        self@.pending()
    }

    fn request(&self) -> (r: &Request) {
        self.request()
    }

    fn advance(self, reply: Reply) -> (step: Step<Self, ()>)
        ensures
            step@ == self@.advance(reply@),
    {
        self.advance(reply)
    }
}

impl Machine for Setup {
    type Output = AggregateDevice;

    open spec fn waits_on(&self) -> RequestView {
        self@.pending()
    }

    fn request(&self) -> (r: &Request) {
        self.request()
    }

    fn advance(self, reply: Reply) -> (step: Step<Self, AggregateDevice>)
        ensures
            step@ == self@.advance(reply@),
    {
        self.advance(reply)
    }
}

} // verus!
