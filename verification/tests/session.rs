use goxlr_core::{
    classify_device, interpret_capability_response, ChannelName, ConnectError, DeviceType,
    FaderName, GoXLR, ProtocolError, SessionAction, SessionPhase, TransportError,
};

fn frame(command_id: u32, body_len: u16, sequence: u16, body: &[u8]) -> Vec<u8> {
    let mut buf = Vec::new();
    buf.extend_from_slice(&command_id.to_le_bytes());
    buf.extend_from_slice(&body_len.to_le_bytes());
    buf.extend_from_slice(&sequence.to_le_bytes());
    buf.extend_from_slice(&[0u8; 8]);
    buf.extend_from_slice(body);
    buf
}

fn sequence_of(encoded: &[u8]) -> u16 {
    u16::from_le_bytes([encoded[6], encoded[7]])
}

/// Drive the whole handshake against a simulated device that answers every
/// probe step coherently; the session must reach `Ready`.
#[test]
fn handshake_reaches_ready() {
    let mut session = GoXLR::new();
    assert_eq!(session.phase(), SessionPhase::Disconnected);

    let probe = session.begin_open(0x1220, 0x8fe0).expect("known device");
    assert_eq!(session.device_type(), DeviceType::Full);
    match probe {
        SessionAction::ControlRead { request, value, index, length } => {
            assert_eq!((request, value, index, length), (0, 0, 0, 24));
        }
        other => panic!("expected a probe read, got {:?}", other),
    }

    // Step 1: a coherent 24-byte probe answer.
    let reset = session.advance_handshake(Ok(vec![0u8; 24])).expect("probe ok");
    match reset {
        Some(SessionAction::ControlWrite { request, data, .. }) => {
            assert_eq!(request, 1);
            assert!(data.is_empty());
        }
        other => panic!("expected the reset write, got {:?}", other),
    }

    // Step 2: the zero-length reset write completes.
    let drain = session.advance_handshake(Ok(Vec::new())).expect("reset ok");
    match drain {
        Some(SessionAction::ControlRead { request, length, .. }) => {
            assert_eq!(request, 3);
            assert_eq!(length, 1040);
        }
        other => panic!("expected the drain read, got {:?}", other),
    }

    // Step 3: the drain returns stale bytes, which are discarded.
    let command = session.advance_handshake(Ok(vec![0u8; 16])).expect("drain ok");
    let command_frame = match command {
        Some(SessionAction::ControlWrite { request, data, .. }) => {
            assert_eq!(request, 2);
            assert_eq!(data.len(), 16);
            data
        }
        other => panic!("expected the firmware command write, got {:?}", other),
    };
    let seq = sequence_of(&command_frame);
    assert_eq!(seq, 1);

    // Step 4: the command write completes; the response read is requested.
    let read = session.advance_handshake(Ok(Vec::new())).expect("write ok");
    assert!(matches!(
        read,
        Some(SessionAction::ControlRead { request: 3, length: 1040, .. })
    ));

    // The device echoes the sequence just sent: the session is ready.
    let response = frame(0x800002, 0, seq, &[]);
    let done = session.advance_handshake(Ok(response)).expect("firmware ok");
    assert!(done.is_none());
    assert_eq!(session.phase(), SessionPhase::Ready);
}

/// A malformed probe answer faults the session with a connect error.
#[test]
fn malformed_probe_faults() {
    let mut session = GoXLR::new();
    session.begin_open(0x1220, 0x8fe4).expect("known device");
    assert_eq!(session.device_type(), DeviceType::Mini);
    let r = session.advance_handshake(Ok(vec![0u8; 23]));
    assert_eq!(r.unwrap_err(), ConnectError::DeviceNotGoXLR);
    assert_eq!(session.phase(), SessionPhase::Faulted);
}

/// A firmware response with the wrong sequence number faults the session.
#[test]
fn desynchronized_handshake_faults() {
    let mut session = GoXLR::new();
    session.begin_open(0x1220, 0x8fe0).unwrap();
    session.advance_handshake(Ok(vec![0u8; 24])).unwrap();
    session.advance_handshake(Ok(Vec::new())).unwrap();
    session.advance_handshake(Ok(Vec::new())).unwrap();
    session.advance_handshake(Ok(Vec::new())).unwrap();
    let wrong = frame(0x800002, 0, 2, &[]);
    let r = session.advance_handshake(Ok(wrong));
    assert_eq!(r.unwrap_err(), ConnectError::DeviceNotGoXLR);
    assert_eq!(session.phase(), SessionPhase::Faulted);
}

/// A transport failure during the handshake faults the session.
#[test]
fn transport_failure_during_handshake_faults() {
    let mut session = GoXLR::new();
    session.begin_open(0x1220, 0x8fe0).unwrap();
    let r = session.advance_handshake(Err(TransportError::Timeout));
    assert_eq!(r.unwrap_err(), ConnectError::DeviceNotGoXLR);
    assert_eq!(session.phase(), SessionPhase::Faulted);
}

#[test]
fn unknown_identity_refused() {
    let mut session = GoXLR::new();
    let r = session.begin_open(0x1220, 0x1234);
    assert_eq!(r.unwrap_err(), ConnectError::DeviceNotFound);
    assert_eq!(session.phase(), SessionPhase::Disconnected);
}

#[test]
fn classify_known_identities() {
    assert_eq!(classify_device(0x1220, 0x8fe0), DeviceType::Full);
    assert_eq!(classify_device(0x1220, 0x8fe4), DeviceType::Mini);
    assert_eq!(classify_device(0x1220, 0x0001), DeviceType::Unknown);
    assert_eq!(classify_device(0x046d, 0x8fe0), DeviceType::Unknown);
}

fn ready_session() -> GoXLR {
    let mut session = GoXLR::new();
    session.begin_open(0x1220, 0x8fe0).unwrap();
    session.advance_handshake(Ok(vec![0u8; 24])).unwrap();
    session.advance_handshake(Ok(Vec::new())).unwrap();
    let command = session.advance_handshake(Ok(Vec::new())).unwrap();
    let seq = match command {
        Some(SessionAction::ControlWrite { data, .. }) => sequence_of(&data),
        _ => panic!("expected the firmware command"),
    };
    session.advance_handshake(Ok(Vec::new())).unwrap();
    session.advance_handshake(Ok(frame(0x800002, 0, seq, &[]))).unwrap();
    assert_eq!(session.phase(), SessionPhase::Ready);
    session
}

/// The fader-assignment frame: command group 0x805 with the fader in the low
/// bits, and the channel identifier leading a four-byte body.
#[test]
fn set_fader_frame_exact() {
    let mut session = ready_session();
    let encoded = session.set_fader(FaderName::B, ChannelName::Music);
    let expected_id: u32 = 0x805 << 12 | 1;
    assert_eq!(&encoded[0..4], &expected_id.to_le_bytes());
    assert_eq!(&encoded[4..6], &[4, 0]); // body length 4
    assert_eq!(sequence_of(&encoded), 2); // one past the handshake's request
    assert_eq!(&encoded[16..], &[6, 0, 0, 0]); // Music, then padding
}

#[test]
fn set_volume_frame_exact() {
    let mut session = ready_session();
    let encoded = session.set_volume(ChannelName::Headphones, 0xC0);
    let expected_id: u32 = 0x806 << 12 | 7;
    assert_eq!(&encoded[0..4], &expected_id.to_le_bytes());
    assert_eq!(&encoded[16..], &[0xC0]);
}

#[test]
fn capability_query_frame_and_answer() {
    let mut session = ready_session();
    let encoded = session.supports_dcp_category(0x0102);
    let expected_id: u32 = 0x800 << 12 | 1;
    assert_eq!(&encoded[0..4], &expected_id.to_le_bytes());
    assert_eq!(&encoded[16..], &[0x02, 0x01]);

    assert!(interpret_capability_response(&vec![1, 0]));
    assert!(interpret_capability_response(&vec![0, 1]));
    assert!(!interpret_capability_response(&vec![0, 0]));
    assert!(!interpret_capability_response(&Vec::new()));
    assert!(!interpret_capability_response(&vec![1]));
}

/// A command response is correlated by sequence number, not adjacency.
#[test]
fn complete_command_checks_sequence() {
    let mut session = ready_session();
    let encoded = session.get_system_info();
    let seq = sequence_of(&encoded);

    let stale = frame(0x800002, 2, seq.wrapping_sub(1), &[3, 4]);
    assert_eq!(
        session.complete_command(&stale),
        Err(ProtocolError::Desynchronized)
    );

    let fresh = frame(0x800002, 2, seq, &[3, 4]);
    assert_eq!(session.complete_command(&fresh), Ok(vec![3, 4]));
}

#[test]
fn interrupt_outcomes() {
    let mut session = ready_session();
    assert_eq!(
        session.handle_interrupt_result(Ok(vec![1, 2, 3, 4, 5, 6])),
        Ok(Some(vec![1, 2, 3, 4, 5, 6]))
    );
    assert_eq!(session.phase(), SessionPhase::Ready);

    assert_eq!(session.handle_interrupt_result(Err(TransportError::Timeout)), Ok(None));
    assert_eq!(session.phase(), SessionPhase::Ready);

    assert_eq!(
        session.handle_interrupt_result(Err(TransportError::Stall)),
        Err(TransportError::Stall)
    );
    assert_eq!(session.phase(), SessionPhase::Ready);

    assert_eq!(
        session.handle_interrupt_result(Err(TransportError::DeviceGone)),
        Err(TransportError::DeviceGone)
    );
    assert_eq!(session.phase(), SessionPhase::Faulted);
}

#[test]
fn losing_the_device_faults_the_session() {
    let mut session = ready_session();
    session.on_transport_error(TransportError::Timeout);
    assert_eq!(session.phase(), SessionPhase::Ready);
    session.on_transport_error(TransportError::Stall);
    assert_eq!(session.phase(), SessionPhase::Ready);
    session.on_transport_error(TransportError::DeviceGone);
    assert_eq!(session.phase(), SessionPhase::Faulted);
}
