use hyper_headset::errors::{rusb_to_hid, DeviceError, HidError, UsbError};

#[test]
fn usb_errors_are_worded_by_rusb() {
    let all = [
        (UsbError::Io, rusb::Error::Io),
        (UsbError::InvalidParam, rusb::Error::InvalidParam),
        (UsbError::Access, rusb::Error::Access),
        (UsbError::NoDevice, rusb::Error::NoDevice),
        (UsbError::NotFound, rusb::Error::NotFound),
        (UsbError::Busy, rusb::Error::Busy),
        (UsbError::Timeout, rusb::Error::Timeout),
        (UsbError::Overflow, rusb::Error::Overflow),
        (UsbError::Pipe, rusb::Error::Pipe),
        (UsbError::Interrupted, rusb::Error::Interrupted),
        (UsbError::NoMem, rusb::Error::NoMem),
        (UsbError::NotSupported, rusb::Error::NotSupported),
        (UsbError::BadDescriptor, rusb::Error::BadDescriptor),
        (UsbError::Other, rusb::Error::Other),
    ];
    for (ours, theirs) in all {
        assert!(rusb_to_hid(ours) == HidError::HidApiError { message: format!("libusb: {theirs}") });
    }
    let pipe = HidError::HidApiError { message: "libusb: Pipe error".to_string() };
    assert!(rusb_to_hid(UsbError::Pipe) == pipe);
}

#[test]
fn hid_errors_for_debugging() {
    let message = "bad \"write\"\n".to_string();
    assert_eq!(
        HidError::HidApiError { message: message.clone() }.debug_string(),
        format!("{:?}", hidapi::HidError::HidApiError { message })
    );
    assert_eq!(
        HidError::HidApiError { message: "off".to_string() }.debug_string(),
        "HidApiError { message: \"off\" }"
    );
    assert_eq!(
        HidError::InvalidZeroSizeData.debug_string(),
        format!("{:?}", hidapi::HidError::InvalidZeroSizeData)
    );
    let other = format!("{:?}", hidapi::HidError::IncompleteSendError { sent: 1, all: 2 });
    assert_eq!(HidError::Other { debug: other.clone() }.debug_string(), other);
}

#[test]
fn refused_output_reports_are_recognised() {
    let with = |m: &str| HidError::HidApiError { message: m.to_string() };
    assert!(with("WriteFile: (0x00000001) Incorrect function.").is_output_report_refusal());
    assert!(with("Incorrect function").is_output_report_refusal());
    assert!(with("(0x00000001)").is_output_report_refusal());
    assert!(!with("WriteFile: (0x00000005) Access denied.").is_output_report_refusal());
    assert!(!with("incorrect function").is_output_report_refusal());
    assert!(!with("").is_output_report_refusal());
    assert!(!HidError::InvalidZeroSizeData.is_output_report_refusal());
    assert!(!HidError::Other { debug: "Incorrect function".to_string() }.is_output_report_refusal());
}

#[test]
fn device_errors_are_worded() {
    assert_eq!(DeviceError::NoDeviceFound().to_string(), "No device found.");
    assert_eq!(DeviceError::HeadSetOff().to_string(), "No response. Is the headset turned on?");
    assert_eq!(DeviceError::NoResponse().to_string(), "No response.");
    assert_eq!(
        DeviceError::from(HidError::InvalidZeroSizeData).to_string(),
        "InvalidZeroSizeData"
    );
    assert_eq!(DeviceError::NoResponse().debug_string(), "No response.");
    assert_eq!(
        DeviceError::HidError(HidError::HidApiError { message: "off".to_string() }).debug_string(),
        "HidApiError { message: \"off\" }"
    );
    let bytes = [0u8, 1, 20, 255, 4, 5, 6, 7];
    assert_eq!(
        DeviceError::UnknownResponse(bytes, 20).to_string(),
        format!("Unknown response: {:?} with length: {:?}", bytes, 20usize)
    );
}
