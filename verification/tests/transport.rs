use hyper_headset::duration::Duration;
use hyper_headset::errors::{HidError, UsbError};
use hyper_headset::transport::{
    control_result, reported_name, ControlRequest, HidTransport, LibusbTransport, ProductString,
    TransportRequest, HID_REPORT_TYPE_FEATURE, HID_REPORT_TYPE_INPUT, HID_REPORT_TYPE_OUTPUT,
};

fn libusb() -> HidTransport<(), u32> {
    HidTransport::Libusb(LibusbTransport::open(17, 3, 0x84, Some("Cloud III S".to_string())))
}

fn hid() -> HidTransport<(), u32> {
    HidTransport::Hidapi(())
}

fn request(request_type: u8, request: u8, value: u16) -> ControlRequest {
    ControlRequest {
        request_type,
        request,
        value,
        index: 3,
        timeout: Duration::from_millis(500),
    }
}

#[test]
fn writes_become_control_transfers() {
    let out = rusb::request_type(
        rusb::Direction::Out,
        rusb::RequestType::Class,
        rusb::Recipient::Interface,
    );
    assert_eq!(out, 0x21);
    let expected = TransportRequest::ControlOut(request(out, 0x09, 0x0266));
    assert!(libusb().write(&[0x66, 1, 2]) == Ok(expected));
    let expected = TransportRequest::ControlOut(request(out, 0x09, 0x03ff));
    assert!(libusb().send_feature_report(&[0xff]) == Ok(expected));
}

#[test]
fn report_reads_become_control_transfers() {
    let inward = rusb::request_type(
        rusb::Direction::In,
        rusb::RequestType::Class,
        rusb::Recipient::Interface,
    );
    assert_eq!(inward, 0xa1);
    let expected = TransportRequest::ControlIn(request(inward, 0x01, 0x010c));
    assert!(libusb().get_input_report(&[0x0c, 0]) == Ok(expected));
}

#[test]
fn empty_reports_are_refused() {
    assert!(libusb().write(&[]) == Err(HidError::InvalidZeroSizeData));
    assert!(libusb().send_feature_report(&[]) == Err(HidError::InvalidZeroSizeData));
    assert!(libusb().get_input_report(&[]) == Err(HidError::InvalidZeroSizeData));
}

#[test]
fn hidapi_devices_do_it_themselves() {
    assert!(hid().write(&[]) == Ok(TransportRequest::Hidapi));
    assert!(hid().send_feature_report(&[1]) == Ok(TransportRequest::Hidapi));
    assert!(hid().get_input_report(&[1]) == Ok(TransportRequest::Hidapi));
    assert!(hid().read_timeout(1000) == TransportRequest::Hidapi);
    assert!(!hid().is_libusb());
    assert!(libusb().is_libusb());
}

#[test]
fn report_types_keep_their_low_byte() {
    let t = LibusbTransport::open((), 0, 0x81, None);
    assert!(t.set_report(0x0102, &[3]).map(|r| r.value) == Ok(0x0203));
    assert!(t.get_report(0xffff, &[0]).map(|r| r.value) == Ok(0xff00));
    assert_eq!(
        (HID_REPORT_TYPE_INPUT, HID_REPORT_TYPE_OUTPUT, HID_REPORT_TYPE_FEATURE),
        (1, 2, 3)
    );
}

#[test]
fn reads_wait_as_long_as_they_may() {
    let queue = |secs, nanos| TransportRequest::Queue(Duration { secs, nanos });
    assert!(libusb().read_timeout(0) == queue(0, 0));
    assert!(libusb().read_timeout(1500) == queue(1, 500_000_000));
    assert!(libusb().read_timeout(-1) == queue(3600, 0));
    assert!(libusb().read_timeout(i32::MIN) == queue(3600, 0));
    assert!(libusb().read_timeout(i32::MAX) == queue(2_147_483, 647_000_000));
}

#[test]
fn control_results_are_hid_results() {
    assert!(control_result(Ok(5)) == Ok(5));
    let late = HidError::HidApiError { message: "libusb: Operation timed out".to_string() };
    assert!(control_result(Err(UsbError::Timeout)) == Err(late));
}

#[test]
fn product_names() {
    assert!(matches!(hid().product_string(), ProductString::AskHidapi));
    match libusb().product_string() {
        ProductString::Known(name) => assert_eq!(name.as_deref(), Some("Cloud III S")),
        ProductString::AskHidapi => panic!("the name is known"),
    }
    assert_eq!(reported_name(Ok(Some("x".to_string()))).as_deref(), Some("x"));
    assert_eq!(reported_name(Ok(None)), None);
    assert!(reported_name(Err(HidError::InvalidZeroSizeData)) == None);
}

#[test]
fn transports_for_debugging() {
    assert_eq!(hid().debug_string(), "HidTransport::Hidapi(..)");
    assert_eq!(libusb().debug_string(), "HidTransport::Libusb { interface: 3, ep_in: 0x84 }");
    let t: HidTransport<(), ()> = HidTransport::Libusb(LibusbTransport::open((), 12, 0x05, None));
    assert_eq!(t.debug_string(), "HidTransport::Libusb { interface: 12, ep_in: 0x05 }");
}
