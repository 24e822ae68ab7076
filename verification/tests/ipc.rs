use goxlr_core::{
    ChannelName, DaemonRequest, DeviceStatus, DeviceType, FaderName, GoXLRCommand, MixerStatus,
    UsbProductInformation,
};

#[test]
fn device_type_defaults_to_unknown() {
    assert_eq!(DeviceType::default(), DeviceType::Unknown);
}

#[test]
fn device_status_defaults_to_nothing_attached() {
    let status = DeviceStatus::default();
    assert_eq!(status.device_type, DeviceType::Unknown);
    assert!(status.usb_device.is_none());
    assert!(status.mixer.is_none());
}

#[test]
fn requests_carry_their_command() {
    let request = DaemonRequest::Command(GoXLRCommand::AssignFader(
        FaderName::A,
        ChannelName::Chat,
    ));
    match request {
        DaemonRequest::Command(GoXLRCommand::AssignFader(fader, channel)) => {
            assert_eq!(fader, FaderName::A);
            assert_eq!(channel, ChannelName::Chat);
        }
        other => panic!("unexpected request {:?}", other),
    }
    assert_eq!(DaemonRequest::Ping, DaemonRequest::Ping);
}

#[test]
fn status_report_holds_plain_values() {
    let status = DeviceStatus {
        device_type: DeviceType::Full,
        usb_device: Some(UsbProductInformation {
            manufacturer_name: "TC-Helicon".to_string(),
            product_name: "GoXLR".to_string(),
            version: (1, 2, 3),
            is_claimed: true,
            has_kernel_driver_attached: false,
            bus_number: 3,
            address: 9,
        }),
        mixer: Some(MixerStatus {
            fader_a_assignment: ChannelName::Mic,
            fader_b_assignment: ChannelName::Music,
            fader_c_assignment: ChannelName::Chat,
            fader_d_assignment: ChannelName::System,
        }),
    };
    let usb = status.usb_device.as_ref().unwrap();
    assert_eq!(usb.version, (1, 2, 3));
    assert!(usb.is_claimed);
    let mixer = status.mixer.as_ref().unwrap();
    assert_eq!(mixer.fader_b_assignment, ChannelName::Music);
}
