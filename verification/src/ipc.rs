//! The plain data types of the daemon's request surface and status report.
//! The envelope that carries them over a local socket is the embedding
//! program's concern; the types themselves are ordinary values.

use vstd::prelude::*;
use crate::commands::{ChannelName, FaderName};
use crate::session::{DeviceType, UsbProductInformation};

verus! {

/// A command a remote client may ask the daemon to run on the appliance.
#[derive(Debug, Clone, Copy, PartialEq, Eq, Structural)]
pub enum GoXLRCommand {
    GetStatus,
    AssignFader(FaderName, ChannelName),
}

/// One request from a remote client.
#[derive(Debug, Clone, Copy, PartialEq, Eq, Structural)]
pub enum DaemonRequest {
    Ping,
    Command(GoXLRCommand),
}

/// The current fader assignments of the mixer.
#[derive(Debug, Clone, Copy, PartialEq, Eq, Structural)]
pub struct MixerStatus {
    pub fader_a_assignment: ChannelName,
    pub fader_b_assignment: ChannelName,
    pub fader_c_assignment: ChannelName,
    pub fader_d_assignment: ChannelName,
}

/// What the daemon reports about the attached device, if any.
#[derive(Debug)]
pub struct DeviceStatus {
    pub device_type: DeviceType,
    pub usb_device: Option<UsbProductInformation>,
    pub mixer: Option<MixerStatus>,
}

impl Default for DeviceStatus {
    /// The status before any device is attached: unknown type, no USB
    /// information, no mixer state.
    fn default() -> (r: Self)
        ensures
            r.device_type == DeviceType::Unknown,
            r.usb_device is None,
            r.mixer is None,
    {
        DeviceStatus { device_type: DeviceType::Unknown, usb_device: None, mixer: None }
    }
}

} // verus!
