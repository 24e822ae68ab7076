//! Control core for a USB-attached multi-channel audio mixer appliance.
//!
//! Two subsystems carry the load: the vendor command protocol (a 16-byte
//! little-endian frame header, a sequence-correlated command channel, and a
//! session state machine around the open handshake), and an audio session
//! table that tracks one playback or recording worker per (bank, button)
//! slot with two-phase stop semantics. All transfer and thread I/O is left
//! to the embedding program; this crate holds the decisions and the data.

mod audio;
mod channel;
mod codec;
mod commands;
mod discovery;
mod ipc;
mod samples;
mod session;

pub use audio::{
    lemma_device_cache_window, reap_cell, spec_bank_index, spec_button_index, spec_cell_index,
    AudioError, AudioFile, AudioHandler, PlayerTask, StateManager, StopAction, StreamType,
    DEVICE_CACHE_WINDOW_MS, FADE_OUT_MS,
};
pub use channel::{lemma_sequence_strictly_increases, wrap_inc, CommandChannel, ProtocolError};
pub use ipc::{DaemonRequest, DeviceStatus, GoXLRCommand, MixerStatus};
pub use samples::{PlayOrder, PlaybackMode, SampleBank, SampleButtons};
pub use codec::{
    decode, encode, lemma_decode_length_mismatch, lemma_decode_truncated,
    lemma_frame_round_trip, spec_decode, spec_encode, u16_from_le, u16_le, u32_le, FrameError,
};
pub use discovery::{input_device_matches, output_device_matches, regex_match};
pub use commands::{ChannelName, Command, FaderName, SystemInfoCommand};
pub use session::{
    classify_device, firmware_command_id, in_handshake, interpret_capability_response,
    spec_classify_device, ConnectError, DeviceType, GoXLR,
    SessionAction, SessionPhase, TransportError, UsbProductInformation, COMMAND_SETTLE_MS,
    CONTROL_TIMEOUT_MS, INTERRUPT_ENDPOINT, INTERRUPT_LENGTH, INTERRUPT_TIMEOUT_MS,
    PID_GOXLR_FULL, PID_GOXLR_MINI, PROBE_LENGTH, REQUEST_COMMAND, REQUEST_PROBE, REQUEST_RESET,
    REQUEST_RESPONSE, RESPONSE_BUFFER_LENGTH, VENDOR_GOXLR,
};
