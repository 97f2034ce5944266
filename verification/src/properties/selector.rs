//! The selectors that an address can name, each bound to the type of the
//! property's content.
use vstd::prelude::*;
use crate::cf::{CFArray, CFString};
use crate::device::CADevice;
use crate::properties::{four_cc, Selector};
use crate::protocol::{AudioBufferList, AudioValueTranslation, Float64};

verus! {

/// The handles of all devices that the system has at present.
#[derive(Debug, Clone, Copy)]
pub struct HardwarePropertyDevices;

impl Selector for HardwarePropertyDevices {
    type Type = Vec<CADevice>;

    open spec fn code() -> u32 {
        four_cc('d', 'e', 'v', '#')
    }

    fn selector() -> (r: u32) {
        0x6465_7623
    }
}

/// The handle of the default input device.
#[derive(Debug, Clone, Copy)]
pub struct HardwarePropertyDefaultInputDevice;

impl Selector for HardwarePropertyDefaultInputDevice {
    type Type = CADevice;

    open spec fn code() -> u32 {
        four_cc('d', 'I', 'n', ' ')
    }

    fn selector() -> (r: u32) {
        0x6449_6e20
    }
}

/// The handle of the default output device.
#[derive(Debug, Clone, Copy)]
pub struct HardwarePropertyDefaultOutputDevice;

impl Selector for HardwarePropertyDefaultOutputDevice {
    type Type = CADevice;

    open spec fn code() -> u32 {
        four_cc('d', 'O', 'u', 't')
    }

    fn selector() -> (r: u32) {
        0x644f_7574
    }
}

/// Translates the text of a bundle identifier into the identifier of the
/// plug-in that belongs to it, or into the identifier that stands for no
/// object where no plug-in does.
#[derive(Debug, Clone, Copy)]
pub struct HardwarePropertyPlugInForBundleID;

impl Selector for HardwarePropertyPlugInForBundleID {
    type Type = AudioValueTranslation;

    open spec fn code() -> u32 {
        four_cc('p', 'i', 'b', 'i')
    }

    fn selector() -> (r: u32) {
        0x7069_6269
    }
}

/// The identifying strings of all the devices that an aggregate device
/// joins, active or not. Their order fixes the order of its streams.
#[derive(Debug, Clone, Copy)]
pub struct AggregateDevicePropertyFullSubDeviceList;

impl Selector for AggregateDevicePropertyFullSubDeviceList {
    type Type = CFArray;

    open spec fn code() -> u32 {
        four_cc('g', 'r', 'u', 'p')
    }

    fn selector() -> (r: u32) {
        0x6772_7570
    }
}

/// Tells a plug-in to destroy an aggregate device. The value is the handle
/// of the device to destroy.
#[derive(Debug, Clone, Copy)]
pub struct PlugInDestroyAggregateDevice;

impl Selector for PlugInDestroyAggregateDevice {
    type Type = CADevice;

    open spec fn code() -> u32 {
        four_cc('d', 'a', 'g', 'g')
    }

    fn selector() -> (r: u32) {
        0x6461_6767
    }
}

/// Tells a plug-in to create an aggregate device. The qualifier is a
/// dictionary that describes it; the value that comes back is the handle of
/// the new device.
#[derive(Debug, Clone, Copy)]
pub struct PlugInCreateAggregateDevice;

impl Selector for PlugInCreateAggregateDevice {
    type Type = CADevice;

    open spec fn code() -> u32 {
        four_cc('c', 'a', 'g', 'g')
    }

    fn selector() -> (r: u32) {
        0x6361_6767
    }
}

/// A string that identifies a device and stays the same across restarts.
/// What it holds is a black box.
#[derive(Debug, Clone, Copy)]
pub struct DevicePropertyDeviceUID;

impl Selector for DevicePropertyDeviceUID {
    type Type = CFString;

    open spec fn code() -> u32 {
        four_cc('u', 'i', 'd', ' ')
    }

    fn selector() -> (r: u32) {
        0x7569_6420
    }
}

/// The streams of one direction of a device and the number of channels in
/// each, as the callback will see them.
#[derive(Debug, Clone, Copy)]
pub struct DevicePropertyStreamConfiguration;

impl Selector for DevicePropertyStreamConfiguration {
    type Type = AudioBufferList;

    open spec fn code() -> u32 {
        four_cc('s', 'l', 'a', 'y')
    }

    fn selector() -> (r: u32) {
        0x736c_6179
    }
}

/// The name of an object for people to read.
#[derive(Debug, Clone, Copy)]
pub struct ObjectPropertyName;

impl Selector for ObjectPropertyName {
    type Type = CFString;

    open spec fn code() -> u32 {
        four_cc('l', 'n', 'a', 'm')
    }

    fn selector() -> (r: u32) {
        0x6c6e_616d
    }
}

/// The nominal sample rate of a device.
#[derive(Debug, Clone, Copy)]
pub struct DevicePropertyNominalSampleRate;

impl Selector for DevicePropertyNominalSampleRate {
    type Type = Float64;

    open spec fn code() -> u32 {
        four_cc('n', 's', 'r', 't')
    }

    fn selector() -> (r: u32) {
        0x6e73_7274
    }
}

/// The sample rate of a device as its time stamps measure it.
#[derive(Debug, Clone, Copy)]
pub struct DevicePropertyActualSampleRate;

impl Selector for DevicePropertyActualSampleRate {
    type Type = Float64;

    open spec fn code() -> u32 {
        four_cc('a', 's', 'r', 't')
    }

    fn selector() -> (r: u32) {
        0x6173_7274
    }
}

} // verus!
