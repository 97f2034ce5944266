//! The entry point: what is asked of the audio subsystem as a whole.
use vstd::prelude::*;
use crate::cf::{CFError, CFString};
use crate::device::CADevice;
use crate::properties::element::Master;
use crate::properties::scope::{Global, Wildcard};
use crate::properties::selector::{
    HardwarePropertyDefaultInputDevice, HardwarePropertyDefaultOutputDevice,
    HardwarePropertyDevices,
};
use crate::properties::{address_of, get, SYSTEM_OBJECT};
use crate::protocol::{reading, PayloadKind, Transfer};
use crate::session::{CASession, Start, StartView};
use crate::traits::Backend;

verus! {

/// The text that identifies the aggregate device of a backend made by
/// [`CABackend::new`].
pub open spec fn default_aggregate_device_uid() -> Seq<char> {
    "com.github.mhallin.Audioshop"@
}

/// The audio subsystem of this machine. It carries the string by which its
/// one aggregate device is found again.
#[derive(Debug, PartialEq, Eq)]
pub struct CABackend {
    uid: CFString,
}

impl View for CABackend {
    type V = Seq<char>;

    /// The string that identifies the backend's aggregate device.
    closed spec fn view(&self) -> Seq<char> {
        self.uid@
    }
}

impl CABackend {
    /// A backend whose aggregate device goes by `uid`.
    pub fn with_aggregate_device_uid(uid: CFString) -> (r: Self)
        ensures
            r@ == uid@,
    {
        CABackend { uid }
    }

    /// The string that identifies the backend's aggregate device.
    pub fn aggregate_device_uid(&self) -> (uid: &CFString)
        ensures
            uid@ == self@,
    {
        &self.uid
    }
}

impl Backend for CABackend {
    type Session = CASession;

    type Device = CADevice;

    type Error = CFError;

    type Listing = Transfer;

    type Lookup = Transfer;

    type Starting = Start;

    /// A backend whose aggregate device goes by the default string.
    fn new() -> (r: Result<Self, CFError>)
        ensures
            r is Ok,
            r->Ok_0@ == default_aggregate_device_uid(),
    {
        Ok(CABackend { uid: CFString::new("com.github.mhallin.Audioshop") })
    }

    /// Begins the listing of all devices, in the order in which the audio
    /// subsystem reports them. The listing ends with the handles that the
    /// audio subsystem reports to have written, and with no other: where
    /// devices have gone since the size was probed, the list is the shorter
    /// for it.
    fn all_devices(&self) -> (t: Transfer)
        ensures
            t@ == reading(
                PayloadKind::DeviceList,
                SYSTEM_OBJECT,
                address_of::<Master, Wildcard, HardwarePropertyDevices>(),
            ),
    {
        get(Master, Wildcard, HardwarePropertyDevices, SYSTEM_OBJECT)
    }

    /// Begins the lookup of the default input device.
    fn default_input_device(&self) -> (t: Transfer)
        ensures
            t@ == reading(
                PayloadKind::Device,
                SYSTEM_OBJECT,
                address_of::<Master, Global, HardwarePropertyDefaultInputDevice>(),
            ),
    {
        get(Master, Global, HardwarePropertyDefaultInputDevice, SYSTEM_OBJECT)
    }

    /// Begins the lookup of the default output device.
    fn default_output_device(&self) -> (t: Transfer)
        ensures
            t@ == reading(
                PayloadKind::Device,
                SYSTEM_OBJECT,
                address_of::<Master, Global, HardwarePropertyDefaultOutputDevice>(),
            ),
    {
        get(Master, Global, HardwarePropertyDefaultOutputDevice, SYSTEM_OBJECT)
    }

    /// Begins the start of a session on the backend's aggregate device,
    /// which is to join `input_device` and `output_device`.
    fn start_session(&self, input_device: CADevice, output_device: CADevice) -> (r: Start)
        ensures
            r@ == StartView::begin(self@, input_device, output_device),
    {
        CASession::new_started(self, input_device, output_device)
    }
}

} // verus!
