//! Handles of audio devices.
use vstd::prelude::*;
use crate::backend::CABackend;
use crate::properties::element::Master;
use crate::properties::scope::{Input, Output, Wildcard};
use crate::properties::selector::{
    DevicePropertyActualSampleRate, DevicePropertyDeviceUID, DevicePropertyNominalSampleRate,
    DevicePropertyStreamConfiguration, ObjectPropertyName,
};
use crate::properties::{address_of, get};
use crate::protocol::{reading, writing, Float64, PayloadKind, PayloadView, Transfer};
use crate::traits::Device;

verus! {

/// The identifier that stands for "no object".
pub const OBJECT_UNKNOWN: u32 = 0;

/// The handle of an audio device: an identifier that the audio subsystem
/// hands out. It owns nothing; the device outlives it.
#[derive(Debug, Clone, Copy, PartialEq, Eq, Structural)]
pub struct CADevice(pub u32);

impl CADevice {
    /// A handle that names no device yet, for a slot that the audio
    /// subsystem is about to fill.
    pub fn uninit() -> (d: Self)
        ensures
            d == CADevice(OBJECT_UNKNOWN),
    {
        CADevice(OBJECT_UNKNOWN)
    }

    /// The handle with the identifier `id`.
    pub fn new(id: u32) -> (d: Self)
        ensures
            d == CADevice(id),
    {
        CADevice(id)
    }

    /// The identifier of the device.
    pub fn id(&self) -> (id: u32)
        ensures
            id == self.0,
    {
        self.0
    }

    /// Begins the read of the string that identifies the device.
    pub fn uid(&self) -> (t: Transfer)
        ensures
            t@ == reading(
                PayloadKind::String,
                self.0,
                address_of::<Master, Output, DevicePropertyDeviceUID>(),
            ),
    {
        get(Master, Output, DevicePropertyDeviceUID, self.0)
    }
}

impl Device<CABackend> for CADevice {
    type Reading = Transfer;

    type Writing = Transfer;

    type SampleRate = Float64;

    /// Begins the read of the layout of the input streams of the device.
    /// The number of inputs is the number of channels of that layout, which
    /// [`AudioBufferList::number_channels`](crate::protocol::AudioBufferList::number_channels)
    /// counts.
    fn num_inputs(&self) -> (t: Transfer)
        ensures
            t@ == reading(
                PayloadKind::BufferList,
                self.0,
                address_of::<Master, Input, DevicePropertyStreamConfiguration>(),
            ),
    {
        get(Master, Input, DevicePropertyStreamConfiguration, self.0)
    }

    /// Begins the read of the layout of the output streams of the device.
    /// The number of outputs is the number of channels of that layout,
    /// which
    /// [`AudioBufferList::number_channels`](crate::protocol::AudioBufferList::number_channels)
    /// counts.
    fn num_outputs(&self) -> (t: Transfer)
        ensures
            t@ == reading(
                PayloadKind::BufferList,
                self.0,
                address_of::<Master, Output, DevicePropertyStreamConfiguration>(),
            ),
    {
        get(Master, Output, DevicePropertyStreamConfiguration, self.0)
    }

    /// Begins the read of the name of the device.
    fn name(&self) -> (t: Transfer)
        ensures
            t@ == reading(
                PayloadKind::String,
                self.0,
                address_of::<Master, Wildcard, ObjectPropertyName>(),
            ),
    {
        get(Master, Wildcard, ObjectPropertyName, self.0)
    }

    /// Begins the write of `sample_rate` as the nominal sample rate of the
    /// device. The handle stays as it is.
    fn set_nominal_sample_rate(&mut self, sample_rate: Float64) -> (t: Transfer)
        ensures
            *final(self) == *old(self),
            t@ == writing(
                old(self).0,
                address_of::<Master, Wildcard, DevicePropertyNominalSampleRate>(),
                PayloadView::Float64(sample_rate),
            ),
    {
        crate::properties::set(
            Master,
            Wildcard,
            DevicePropertyNominalSampleRate,
            self.0,
            sample_rate,
        )
    }

    /// Begins the read of the nominal sample rate of the device.
    fn nominal_sample_rate(&self) -> (t: Transfer)
        ensures
            t@ == reading(
                PayloadKind::Float64,
                self.0,
                address_of::<Master, Wildcard, DevicePropertyNominalSampleRate>(),
            ),
    {
        get(Master, Wildcard, DevicePropertyNominalSampleRate, self.0)
    }

    /// Begins the read of the sample rate of the device as measured.
    fn actual_sample_rate(&self) -> (t: Transfer)
        ensures
            t@ == reading(
                PayloadKind::Float64,
                self.0,
                address_of::<Master, Wildcard, DevicePropertyActualSampleRate>(),
            ),
    {
        get(Master, Wildcard, DevicePropertyActualSampleRate, self.0)
    }
}

} // verus!
