//! The typed command surface carried over the frame codec: fader and channel
//! identifiers and the 32-bit command identifiers the appliance expects.

use vstd::prelude::*;

verus! {

/// A physical fader strip on the appliance.
#[derive(Debug, Clone, Copy, PartialEq, Eq, Structural)]
pub enum FaderName {
    A,
    B,
    C,
    D,
}

impl FaderName {
    /// The wire identifier of this fader.
    pub open spec fn spec_id(self) -> u8 {
        match self {
            FaderName::A => 0,
            FaderName::B => 1,
            FaderName::C => 2,
            FaderName::D => 3,
        }
    }

    /// The wire identifier of this fader.
    pub fn id(self) -> (r: u8)
        ensures
            r == self.spec_id(),
    {
        match self {
            FaderName::A => 0,
            FaderName::B => 1,
            FaderName::C => 2,
            FaderName::D => 3,
        }
    }
}

/// A mixer channel that can be assigned to a fader or have its volume set.
#[derive(Debug, Clone, Copy, PartialEq, Eq, Structural)]
pub enum ChannelName {
    Mic,
    LineIn,
    Console,
    System,
    Game,
    Chat,
    Music,
    Headphones,
    MicMonitor,
    LineOut,
}

impl ChannelName {
    /// The wire identifier of this channel.
    pub open spec fn spec_id(self) -> u8 {
        match self {
            ChannelName::Mic => 0,
            ChannelName::LineIn => 1,
            ChannelName::Console => 2,
            ChannelName::System => 3,
            ChannelName::Game => 4,
            ChannelName::Chat => 5,
            ChannelName::Music => 6,
            ChannelName::Headphones => 7,
            ChannelName::MicMonitor => 8,
            ChannelName::LineOut => 9,
        }
    }

    /// The wire identifier of this channel.
    pub fn id(self) -> (r: u8)
        ensures
            r == self.spec_id(),
    {
        match self {
            ChannelName::Mic => 0,
            ChannelName::LineIn => 1,
            ChannelName::Console => 2,
            ChannelName::System => 3,
            ChannelName::Game => 4,
            ChannelName::Chat => 5,
            ChannelName::Music => 6,
            ChannelName::Headphones => 7,
            ChannelName::MicMonitor => 8,
            ChannelName::LineOut => 9,
        }
    }
}

/// A system-information subcommand.
#[derive(Debug, Clone, Copy, PartialEq, Eq, Structural)]
pub enum SystemInfoCommand {
    SupportsDCPCategory,
    FirmwareVersion,
}

impl SystemInfoCommand {
    /// The subcommand identifier within the system-information command group.
    pub open spec fn spec_id(self) -> u8 {
        match self {
            SystemInfoCommand::SupportsDCPCategory => 1,
            SystemInfoCommand::FirmwareVersion => 2,
        }
    }

    /// The subcommand identifier within the system-information command group.
    pub fn id(self) -> (r: u8)
        ensures
            r == self.spec_id(),
    {
        match self {
            SystemInfoCommand::SupportsDCPCategory => 1,
            SystemInfoCommand::FirmwareVersion => 2,
        }
    }
}

/// A command the appliance understands. The command group occupies the high
/// 20 bits of the identifier; the group-specific argument sits in the low 12.
#[derive(Debug, Clone, Copy, PartialEq, Eq, Structural)]
pub enum Command {
    SystemInfo(SystemInfoCommand),
    SetFader(FaderName),
    SetChannelVolume(ChannelName),
}

impl Command {
    /// The 32-bit identifier written into the frame header for this command.
    pub open spec fn spec_command_id(self) -> u32 {
        match self {
            Command::SystemInfo(sub) => (0x800 * 0x1000 + sub.spec_id()) as u32,
            Command::SetFader(fader) => (0x805 * 0x1000 + fader.spec_id()) as u32,
            Command::SetChannelVolume(channel) => (0x806 * 0x1000 + channel.spec_id()) as u32,
        }
    }

    /// The 32-bit identifier written into the frame header for this command.
    pub fn command_id(self) -> (r: u32)
        ensures
            r == self.spec_command_id(),
    {
        match self {
            Command::SystemInfo(sub) => 0x800 * 0x1000 + sub.id() as u32,
            Command::SetFader(fader) => 0x805 * 0x1000 + fader.id() as u32,
            Command::SetChannelVolume(channel) => 0x806 * 0x1000 + channel.id() as u32,
        }
    }
}

} // verus!
