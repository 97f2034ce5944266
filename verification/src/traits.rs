//! The capabilities that an audio backend offers to an application,
//! whatever the platform behind it.
//!
//! No method here talks to hardware. Where a capability needs the
//! hardware, the method hands out the machine that carries the operation
//! through, and the caller runs it.
use vstd::prelude::*;

verus! {

/// An audio subsystem.
pub trait Backend: Sized {
    /// A running session.
    type Session;

    /// The handle of a device.
    type Device;

    /// What a failed operation reports.
    type Error;

    /// The machine that lists devices.
    type Listing;

    /// The machine that looks one device up.
    type Lookup;

    /// The machine that starts a session.
    type Starting;

    fn new() -> Result<Self, Self::Error>;

    /// Begins the listing of all devices that the system has.
    fn all_devices(&self) -> Self::Listing;

    /// Begins the lookup of the default input device.
    fn default_input_device(&self) -> Self::Lookup;

    /// Begins the lookup of the default output device.
    fn default_output_device(&self) -> Self::Lookup;

    /// Begins the start of a session that joins the two devices.
    fn start_session(
        &self,
        input_device: Self::Device,
        output_device: Self::Device,
    ) -> Self::Starting;
}

/// A running session.
pub trait Session<B: Backend>: Sized {
    /// The machine that swaps a device.
    type Swapping;

    fn input_device(&self) -> Result<B::Device, B::Error>;

    fn output_device(&self) -> Result<B::Device, B::Error>;

    /// Makes `device` the input device, and begins the swap.
    fn set_input_device(&mut self, device: B::Device) -> Self::Swapping;

    /// Makes `device` the output device, and begins the swap.
    fn set_output_device(&mut self, device: B::Device) -> Self::Swapping;
}

/// The handle of a device.
pub trait Device<B: Backend> {
    /// The machine that reads one attribute of the device.
    type Reading;

    /// The machine that writes one attribute of the device.
    type Writing;

    /// The bit pattern of a sample rate.
    type SampleRate;

    /// Begins the read of the layout of the input streams. The number of
    /// inputs is the number of channels that those streams have together.
    fn num_inputs(&self) -> Self::Reading;

    /// Begins the read of the layout of the output streams. The number of
    /// outputs is the number of channels that those streams have together.
    fn num_outputs(&self) -> Self::Reading;

    /// Begins the read of the name.
    fn name(&self) -> Self::Reading;

    /// Begins the write of the nominal sample rate.
    fn set_nominal_sample_rate(&mut self, sample_rate: Self::SampleRate) -> Self::Writing;

    /// Begins the read of the nominal sample rate.
    fn nominal_sample_rate(&self) -> Self::Reading;

    /// Begins the read of the sample rate as measured.
    fn actual_sample_rate(&self) -> Self::Reading;
}

/// The shape of one stream's samples in a render callback.
pub trait AudioBuffers {
    fn num_frames(&self) -> usize;

    fn num_channels(&self) -> usize;
}

} // verus!
