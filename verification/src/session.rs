//! Device session: the open handshake, device classification, and the typed
//! command surface of one attached appliance.
//!
//! The session is a state machine driven by the embedding program, which
//! performs each returned transfer on the USB bus and hands the outcome back.
//! The session itself never touches the bus: it decides what to send, checks
//! what came back, and tracks `Disconnected`, the probing steps, `Ready` and
//! `Faulted`.

use vstd::prelude::*;
use crate::channel::{wrap_inc, CommandChannel, ProtocolError};
use crate::codec::{spec_decode, spec_encode, read_u16_le, u16_from_le, u16_le};
use crate::commands::{ChannelName, Command, FaderName, SystemInfoCommand};

verus! {

/// The vendor identifier of the appliance.
pub const VENDOR_GOXLR: u16 = 0x1220;

/// Product identifier of the full-size hardware variant.
pub const PID_GOXLR_FULL: u16 = 0x8fe0;

/// Product identifier of the mini hardware variant.
pub const PID_GOXLR_MINI: u16 = 0x8fe4;

/// Control request code of the diagnostic probe read.
pub const REQUEST_PROBE: u8 = 0;

/// Control request code of the zero-length reset write.
pub const REQUEST_RESET: u8 = 1;

/// Control request code that carries an encoded command frame.
pub const REQUEST_COMMAND: u8 = 2;

/// Control request code that retrieves a response frame.
pub const REQUEST_RESPONSE: u8 = 3;

/// Exact length of a coherent probe response.
pub const PROBE_LENGTH: u16 = 24;

/// Size of the buffer offered for every response read.
pub const RESPONSE_BUFFER_LENGTH: u16 = 1040;

/// Timeout of one control transfer.
pub const CONTROL_TIMEOUT_MS: u64 = 1000;

/// Settle delay between writing a command and reading its response: the
/// appliance gives no ready signal for command replies.
pub const COMMAND_SETTLE_MS: u64 = 10;

/// Endpoint of the asynchronous hardware notification reports.
pub const INTERRUPT_ENDPOINT: u8 = 0x81;

/// Length of one hardware notification report.
pub const INTERRUPT_LENGTH: u16 = 6;

/// Timeout of one interrupt read; these are rare user-initiated events.
pub const INTERRUPT_TIMEOUT_MS: u64 = 60_000;

/// The hardware variant, fixed at connect time from the USB identity.
#[derive(Debug, Clone, Copy, PartialEq, Eq, Structural)]
pub enum DeviceType {
    Unknown,
    Full,
    Mini,
}

impl Default for DeviceType {
    fn default() -> (r: Self)
        ensures
            r == DeviceType::Unknown,
    {
        DeviceType::Unknown
    }
}

/// The hardware variant a USB identity names.
pub open spec fn spec_classify_device(vendor_id: u16, product_id: u16) -> DeviceType {
    if vendor_id == VENDOR_GOXLR && product_id == PID_GOXLR_FULL {
        DeviceType::Full
    } else if vendor_id == VENDOR_GOXLR && product_id == PID_GOXLR_MINI {
        DeviceType::Mini
    } else {
        DeviceType::Unknown
    }
}

/// The hardware variant a USB identity names.
pub fn classify_device(vendor_id: u16, product_id: u16) -> (r: DeviceType)
    ensures
        r == spec_classify_device(vendor_id, product_id),
{
    if vendor_id == VENDOR_GOXLR && product_id == PID_GOXLR_FULL {
        DeviceType::Full
    } else if vendor_id == VENDOR_GOXLR && product_id == PID_GOXLR_MINI {
        DeviceType::Mini
    } else {
        DeviceType::Unknown
    }
}

/// Descriptive facts about the attached USB device, read at connect time.
#[derive(Debug)]
pub struct UsbProductInformation {
    pub manufacturer_name: String,
    pub product_name: String,
    pub version: (u8, u8, u8),
    pub is_claimed: bool,
    pub has_kernel_driver_attached: bool,
    pub bus_number: u8,
    pub address: u8,
}

/// A per-call transport failure. Only the loss of the device faults the
/// session; a timeout or a stall is surfaced to the caller of that one call.
#[derive(Debug, Clone, Copy, PartialEq, Eq, Structural)]
pub enum TransportError {
    Timeout,
    Stall,
    DeviceGone,
}

/// A failure to bring a session up. Fatal to session startup; never retried
/// inside the core.
#[derive(Debug, Clone, Copy, PartialEq, Eq, Structural)]
pub enum ConnectError {
    /// No attached device carries a known identity.
    DeviceNotFound,
    /// A matched device did not behave as the appliance: a missing string
    /// descriptor, an incoherent probe, or a broken handshake exchange.
    DeviceNotGoXLR,
    /// The control interface could not be claimed exclusively.
    ClaimFailed,
}

/// Where the session stands. The probing steps between `Disconnected` and
/// `Ready` each await the outcome of one control transfer of the fixed
/// handshake; any failure among them ends in `Faulted`.
#[derive(Debug, Clone, Copy, PartialEq, Eq, Structural)]
pub enum SessionPhase {
    Disconnected,
    ProbeSent,
    ResetSent,
    DrainSent,
    FirmwareWriteSent,
    FirmwareReadSent,
    Ready,
    Faulted,
}

/// Whether a phase is one of the handshake steps awaiting a transfer outcome.
pub open spec fn in_handshake(p: SessionPhase) -> bool {
    ||| p == SessionPhase::ProbeSent
    ||| p == SessionPhase::ResetSent
    ||| p == SessionPhase::DrainSent
    ||| p == SessionPhase::FirmwareWriteSent
    ||| p == SessionPhase::FirmwareReadSent
}

/// One control transfer for the embedding program to perform on the bus,
/// with the vendor request type and interface recipient, bounded by
/// `CONTROL_TIMEOUT_MS`.
#[derive(Debug, Clone)]
pub enum SessionAction {
    ControlRead { request: u8, value: u16, index: u16, length: u16 },
    ControlWrite { request: u8, value: u16, index: u16, data: Vec<u8> },
}

/// The frame-header identifier of the firmware-version command, the probe
/// the handshake uses to confirm the command protocol is live.
pub open spec fn firmware_command_id() -> u32 {
    Command::SystemInfo(SystemInfoCommand::FirmwareVersion).spec_command_id()
}

/// One session against one physical appliance: its phase, its command
/// channel, and the hardware variant fixed at connect time.
pub struct GoXLR {
    phase: SessionPhase,
    channel: CommandChannel,
    device_type: DeviceType,
}

impl GoXLR {
    /// The current phase.
    pub closed spec fn spec_phase(&self) -> SessionPhase {
        self.phase
    }

    /// The hardware variant recorded at connect time.
    pub closed spec fn spec_device_type(&self) -> DeviceType {
        self.device_type
    }

    /// The sequence number of the most recently prepared request.
    pub closed spec fn sequence(&self) -> u16 {
        self.channel.sequence()
    }

    /// A fresh, disconnected session.
    pub fn new() -> (r: Self)
        ensures
            r.spec_phase() == SessionPhase::Disconnected,
            r.spec_device_type() == DeviceType::Unknown,
            r.sequence() == 0,
    {
        GoXLR { phase: SessionPhase::Disconnected, channel: CommandChannel::new(), device_type: DeviceType::Unknown }
    }

    /// The current phase.
    pub fn phase(&self) -> (r: SessionPhase)
        ensures
            r == self.spec_phase(),
    {
        self.phase
    }

    /// The hardware variant recorded at connect time.
    pub fn device_type(&self) -> (r: DeviceType)
        ensures
            r == self.spec_device_type(),
    {
        self.device_type
    }

    /// Start opening a session against a device with the given USB identity:
    /// record the hardware variant and ask for the diagnostic probe read, or
    /// refuse an identity that names no known variant.
    pub fn begin_open(&mut self, vendor_id: u16, product_id: u16) -> (r: Result<
        SessionAction,
        ConnectError,
    >)
        requires
            old(self).spec_phase() == SessionPhase::Disconnected,
        ensures
            final(self).sequence() == old(self).sequence(),
            match r {
                Ok(action) => {
                    &&& spec_classify_device(vendor_id, product_id) != DeviceType::Unknown
                    &&& final(self).spec_phase() == SessionPhase::ProbeSent
                    &&& final(self).spec_device_type() == spec_classify_device(
                        vendor_id,
                        product_id,
                    )
                    &&& action matches SessionAction::ControlRead { request, value, index, length }
                    &&& request == REQUEST_PROBE
                    &&& value == 0
                    &&& index == 0
                    &&& length == PROBE_LENGTH
                },
                Err(e) => {
                    &&& spec_classify_device(vendor_id, product_id) == DeviceType::Unknown
                    &&& e == ConnectError::DeviceNotFound
                    &&& final(self).spec_phase() == SessionPhase::Disconnected
                    &&& final(self).spec_device_type() == old(self).spec_device_type()
                },
            },
    {
        let device_type = classify_device(vendor_id, product_id);
        if device_type == DeviceType::Unknown {
            return Err(ConnectError::DeviceNotFound);
        }
        self.device_type = device_type;
        self.phase = SessionPhase::ProbeSent;
        Ok(
            SessionAction::ControlRead {
                request: REQUEST_PROBE,
                value: 0,
                index: 0,
                length: PROBE_LENGTH,
            },
        )
    }

    /// Feed the outcome of the pending handshake transfer in and take the
    /// next transfer out. A coherent probe is exactly `PROBE_LENGTH` bytes;
    /// the firmware response must parse and echo the sequence just sent.
    /// `Ok(None)` means the handshake is complete and the session is ready;
    /// any failure faults the session with a connect-time error.
    pub fn advance_handshake(&mut self, outcome: Result<Vec<u8>, TransportError>) -> (r: Result<
        Option<SessionAction>,
        ConnectError,
    >)
        requires
            in_handshake(old(self).spec_phase()),
        ensures
            final(self).spec_device_type() == old(self).spec_device_type(),
            match outcome {
                Err(_) => {
                    &&& final(self).spec_phase() == SessionPhase::Faulted
                    &&& final(self).sequence() == old(self).sequence()
                    &&& r == Err::<Option<SessionAction>, ConnectError>(
                        ConnectError::DeviceNotGoXLR,
                    )
                },
                Ok(bytes) => match old(self).spec_phase() {
                    SessionPhase::ProbeSent => {
                        if bytes@.len() == PROBE_LENGTH {
                            &&& final(self).spec_phase() == SessionPhase::ResetSent
                            &&& final(self).sequence() == old(self).sequence()
                            &&& r matches Ok(Some(SessionAction::ControlWrite {
                                request,
                                value,
                                index,
                                data,
                            }))
                            &&& request == REQUEST_RESET
                            &&& value == 0
                            &&& index == 0
                            &&& data@ == Seq::<u8>::empty()
                        } else {
                            &&& final(self).spec_phase() == SessionPhase::Faulted
                            &&& final(self).sequence() == old(self).sequence()
                            &&& r == Err::<Option<SessionAction>, ConnectError>(
                                ConnectError::DeviceNotGoXLR,
                            )
                        }
                    },
                    SessionPhase::ResetSent => {
                        &&& final(self).spec_phase() == SessionPhase::DrainSent
                        &&& final(self).sequence() == old(self).sequence()
                        &&& r matches Ok(Some(SessionAction::ControlRead {
                            request,
                            value,
                            index,
                            length,
                        }))
                        &&& request == REQUEST_RESPONSE
                        &&& value == 0
                        &&& index == 0
                        &&& length == RESPONSE_BUFFER_LENGTH
                    },
                    SessionPhase::DrainSent => {
                        &&& final(self).spec_phase() == SessionPhase::FirmwareWriteSent
                        &&& final(self).sequence() == wrap_inc(old(self).sequence())
                        &&& r matches Ok(Some(SessionAction::ControlWrite {
                            request,
                            value,
                            index,
                            data,
                        }))
                        &&& request == REQUEST_COMMAND
                        &&& value == 0
                        &&& index == 0
                        &&& data@ == spec_encode(
                            firmware_command_id(),
                            final(self).sequence(),
                            Seq::<u8>::empty(),
                        )
                    },
                    SessionPhase::FirmwareWriteSent => {
                        &&& final(self).spec_phase() == SessionPhase::FirmwareReadSent
                        &&& final(self).sequence() == old(self).sequence()
                        &&& r matches Ok(Some(SessionAction::ControlRead {
                            request,
                            value,
                            index,
                            length,
                        }))
                        &&& request == REQUEST_RESPONSE
                        &&& value == 0
                        &&& index == 0
                        &&& length == RESPONSE_BUFFER_LENGTH
                    },
                    SessionPhase::FirmwareReadSent => {
                        &&& final(self).sequence() == old(self).sequence()
                        &&& if spec_decode(bytes@) matches Ok((len, seq, payload)) && seq == old(
                            self,
                        ).sequence() {
                            &&& final(self).spec_phase() == SessionPhase::Ready
                            &&& r == Ok::<Option<SessionAction>, ConnectError>(None)
                        } else {
                            &&& final(self).spec_phase() == SessionPhase::Faulted
                            &&& r == Err::<Option<SessionAction>, ConnectError>(
                                ConnectError::DeviceNotGoXLR,
                            )
                        }
                    },
                    _ => false,
                },
            },
    {
        match outcome {
            Err(_) => {
                self.phase = SessionPhase::Faulted;
                Err(ConnectError::DeviceNotGoXLR)
            },
            Ok(bytes) => match self.phase {
                SessionPhase::ProbeSent => {
                    if bytes.len() == PROBE_LENGTH as usize {
                        self.phase = SessionPhase::ResetSent;
                        let data: Vec<u8> = Vec::new();
                        assert(data@ =~= Seq::<u8>::empty());
                        Ok(
                            Some(
                                SessionAction::ControlWrite {
                                    request: REQUEST_RESET,
                                    value: 0,
                                    index: 0,
                                    data,
                                },
                            ),
                        )
                    } else {
                        self.phase = SessionPhase::Faulted;
                        Err(ConnectError::DeviceNotGoXLR)
                    }
                },
                SessionPhase::ResetSent => {
                    self.phase = SessionPhase::DrainSent;
                    Ok(
                        Some(
                            SessionAction::ControlRead {
                                request: REQUEST_RESPONSE,
                                value: 0,
                                index: 0,
                                length: RESPONSE_BUFFER_LENGTH,
                            },
                        ),
                    )
                },
                SessionPhase::DrainSent => {
                    let body: Vec<u8> = Vec::new();
                    let command_id = Command::SystemInfo(
                        SystemInfoCommand::FirmwareVersion,
                    ).command_id();
                    let frame = self.channel.prepare_request(command_id, &body);
                    self.phase = SessionPhase::FirmwareWriteSent;
                    Ok(
                        Some(
                            SessionAction::ControlWrite {
                                request: REQUEST_COMMAND,
                                value: 0,
                                index: 0,
                                data: frame,
                            },
                        ),
                    )
                },
                SessionPhase::FirmwareWriteSent => {
                    self.phase = SessionPhase::FirmwareReadSent;
                    Ok(
                        Some(
                            SessionAction::ControlRead {
                                request: REQUEST_RESPONSE,
                                value: 0,
                                index: 0,
                                length: RESPONSE_BUFFER_LENGTH,
                            },
                        ),
                    )
                },
                SessionPhase::FirmwareReadSent => {
                    match self.channel.accept_response(&bytes) {
                        Ok(_payload) => {
                            self.phase = SessionPhase::Ready;
                            Ok(None)
                        },
                        Err(_) => {
                            self.phase = SessionPhase::Faulted;
                            Err(ConnectError::DeviceNotGoXLR)
                        },
                    }
                },
                SessionPhase::Disconnected | SessionPhase::Ready | SessionPhase::Faulted => {
                    proof {
                        assert(false);
                    }
                    Err(ConnectError::DeviceNotGoXLR)
                },
            },
        }
    }

    /// Build the request frame assigning a channel to a fader. The embedding
    /// program writes it with `REQUEST_COMMAND`, waits `COMMAND_SETTLE_MS`,
    /// reads with `REQUEST_RESPONSE`, and completes the call.
    pub fn set_fader(&mut self, fader: FaderName, channel: ChannelName) -> (r: Vec<u8>)
        requires
            old(self).spec_phase() == SessionPhase::Ready,
        ensures
            final(self).spec_phase() == SessionPhase::Ready,
            final(self).spec_device_type() == old(self).spec_device_type(),
            final(self).sequence() == wrap_inc(old(self).sequence()),
            r@ == spec_encode(
                Command::SetFader(fader).spec_command_id(),
                final(self).sequence(),
                seq![channel.spec_id(), 0u8, 0u8, 0u8],
            ),
    {
        let mut body: Vec<u8> = Vec::new();
        body.push(channel.id());
        body.push(0);
        body.push(0);
        body.push(0);
        assert(body@ =~= seq![channel.spec_id(), 0u8, 0u8, 0u8]);
        self.channel.prepare_request(Command::SetFader(fader).command_id(), &body)
    }

    /// Build the request frame setting a channel's volume.
    pub fn set_volume(&mut self, channel: ChannelName, volume: u8) -> (r: Vec<u8>)
        requires
            old(self).spec_phase() == SessionPhase::Ready,
        ensures
            final(self).spec_phase() == SessionPhase::Ready,
            final(self).spec_device_type() == old(self).spec_device_type(),
            final(self).sequence() == wrap_inc(old(self).sequence()),
            r@ == spec_encode(
                Command::SetChannelVolume(channel).spec_command_id(),
                final(self).sequence(),
                seq![volume],
            ),
    {
        let mut body: Vec<u8> = Vec::new();
        body.push(volume);
        assert(body@ =~= seq![volume]);
        self.channel.prepare_request(Command::SetChannelVolume(channel).command_id(), &body)
    }

    /// Build the request frame asking for the firmware version.
    pub fn get_system_info(&mut self) -> (r: Vec<u8>)
        requires
            old(self).spec_phase() == SessionPhase::Ready,
        ensures
            final(self).spec_phase() == SessionPhase::Ready,
            final(self).spec_device_type() == old(self).spec_device_type(),
            final(self).sequence() == wrap_inc(old(self).sequence()),
            r@ == spec_encode(firmware_command_id(), final(self).sequence(), Seq::<u8>::empty()),
    {
        let body: Vec<u8> = Vec::new();
        assert(body@ =~= Seq::<u8>::empty());
        let command_id = Command::SystemInfo(SystemInfoCommand::FirmwareVersion).command_id();
        self.channel.prepare_request(command_id, &body)
    }

    /// Build the request frame asking whether the appliance supports a
    /// capability category: the category identifier as two little-endian
    /// bytes.
    pub fn supports_dcp_category(&mut self, category: u16) -> (r: Vec<u8>)
        requires
            old(self).spec_phase() == SessionPhase::Ready,
        ensures
            final(self).spec_phase() == SessionPhase::Ready,
            final(self).spec_device_type() == old(self).spec_device_type(),
            final(self).sequence() == wrap_inc(old(self).sequence()),
            r@ == spec_encode(
                Command::SystemInfo(SystemInfoCommand::SupportsDCPCategory).spec_command_id(),
                final(self).sequence(),
                u16_le(category),
            ),
    {
        let mut body: Vec<u8> = Vec::new();
        body.push((category % 256) as u8);
        body.push((category / 256) as u8);
        assert(body@ =~= u16_le(category));
        let command_id = Command::SystemInfo(SystemInfoCommand::SupportsDCPCategory).command_id();
        self.channel.prepare_request(command_id, &body)
    }

    /// Check a command response against the sequence just sent and hand its
    /// payload out. A mismatch is rejected as desynchronized; the session
    /// stays as it is and the caller decides whether to reconnect.
    pub fn complete_command(&self, buf: &Vec<u8>) -> (r: Result<Vec<u8>, ProtocolError>)
        requires
            self.spec_phase() == SessionPhase::Ready,
        ensures
            match spec_decode(buf@) {
                Err(e) => r == Err::<Vec<u8>, ProtocolError>(ProtocolError::Frame(e)),
                Ok((len, seq, payload)) => {
                    if seq == self.sequence() {
                        r matches Ok(v) && v@ == payload
                    } else {
                        r == Err::<Vec<u8>, ProtocolError>(ProtocolError::Desynchronized)
                    }
                },
            },
    {
        self.channel.accept_response(buf)
    }

    /// Record a transport failure seen during any operation: losing the
    /// device faults the session and requires a full reconnect; a timeout or
    /// a stall leaves the phase as it was.
    pub fn on_transport_error(&mut self, error: TransportError)
        ensures
            final(self).spec_device_type() == old(self).spec_device_type(),
            final(self).sequence() == old(self).sequence(),
            final(self).spec_phase() == if error == TransportError::DeviceGone {
                SessionPhase::Faulted
            } else {
                old(self).spec_phase()
            },
    {
        if error == TransportError::DeviceGone {
            self.phase = SessionPhase::Faulted;
        }
    }

    /// Classify the outcome of one bounded interrupt read: bytes are a raw
    /// event, a timeout means no event, a stall is surfaced for this call
    /// only, and a lost device faults the session.
    pub fn handle_interrupt_result(&mut self, outcome: Result<Vec<u8>, TransportError>) -> (r:
        Result<Option<Vec<u8>>, TransportError>)
        requires
            old(self).spec_phase() == SessionPhase::Ready,
        ensures
            final(self).spec_device_type() == old(self).spec_device_type(),
            final(self).sequence() == old(self).sequence(),
            match outcome {
                Ok(bytes) => {
                    &&& final(self).spec_phase() == SessionPhase::Ready
                    &&& r matches Ok(Some(v)) && v@ == bytes@
                },
                Err(TransportError::Timeout) => {
                    &&& final(self).spec_phase() == SessionPhase::Ready
                    &&& r == Ok::<Option<Vec<u8>>, TransportError>(None)
                },
                Err(TransportError::Stall) => {
                    &&& final(self).spec_phase() == SessionPhase::Ready
                    &&& r == Err::<Option<Vec<u8>>, TransportError>(TransportError::Stall)
                },
                Err(TransportError::DeviceGone) => {
                    &&& final(self).spec_phase() == SessionPhase::Faulted
                    &&& r == Err::<Option<Vec<u8>>, TransportError>(TransportError::DeviceGone)
                },
            },
    {
        match outcome {
            Ok(bytes) => Ok(Some(bytes)),
            Err(TransportError::Timeout) => Ok(None),
            Err(TransportError::Stall) => Err(TransportError::Stall),
            Err(TransportError::DeviceGone) => {
                self.phase = SessionPhase::Faulted;
                Err(TransportError::DeviceGone)
            },
        }
    }
}

/// Read a capability answer: a payload of at least two bytes whose leading
/// little-endian 16-bit value is non-zero means the category is supported.
pub fn interpret_capability_response(payload: &Vec<u8>) -> (r: bool)
    ensures
        r == (payload@.len() >= 2 && u16_from_le(payload@[0], payload@[1]) != 0),
{
    if payload.len() < 2 {
        return false;
    }
    read_u16_le(payload[0], payload[1]) != 0
}

} // verus!
