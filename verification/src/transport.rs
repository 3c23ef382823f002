//! How packets reach a headset: through hidapi, or over USB directly.
//!
//! The kernel's HID driver loses replies of some headsets. Their HID interface
//! is claimed through libusb, reports are sent as class control transfers, and a
//! background reader collects the packets of the interrupt endpoint in a queue.
use vstd::prelude::*;
use vstd::string::*;
use crate::duration::Duration;
use crate::errors::{rusb_to_hid, HidError, UsbError};
use crate::text::{decimal_string, hex_byte_string};

verus! {

pub const HID_REQ_GET_REPORT: u8 = 0x01;

pub const HID_REQ_SET_REPORT: u8 = 0x09;

pub const HID_REPORT_TYPE_INPUT: u16 = 0x01;

pub const HID_REPORT_TYPE_OUTPUT: u16 = 0x02;

pub const HID_REPORT_TYPE_FEATURE: u16 = 0x03;

/// How long a control transfer may take, in milliseconds.
pub const CONTROL_TIMEOUT_MILLIS: u64 = 500;

/// How long the background reader waits for one packet, in milliseconds.
pub const READER_TIMEOUT_MILLIS: u64 = 100;

/// The most bytes that the background reader takes at once.
pub const READER_BUFFER_SIZE: usize = 64;

/// How long a read without a limit waits, in seconds.
pub const UNLIMITED_READ_SECS: u64 = 3600;

/// The transport of a headset: `D` is an open hidapi device, `U` what holds a
/// claimed USB interface.
pub enum HidTransport<D, U> {
    Hidapi(D),
    Libusb(LibusbTransport<U>),
}

/// A claimed HID interface with its interrupt endpoint.
pub struct LibusbTransport<U> {
    pub handle: U,
    pub interface: u8,
    pub ep_in: u8,
    pub product_string: Option<String>,
}

/// The setup of a control transfer.
#[derive(Clone, Copy, PartialEq, Eq, Structural)]
pub struct ControlRequest {
    pub request_type: u8,
    pub request: u8,
    pub value: u16,
    pub index: u16,
    pub timeout: Duration,
}

/// What carries out an operation on a transport.
#[derive(Clone, Copy, PartialEq, Eq, Structural)]
pub enum TransportRequest {
    /// The operation of the same name of the hidapi device.
    Hidapi,
    /// A control transfer that sends the bytes.
    ControlOut(ControlRequest),
    /// A control transfer that fills the buffer.
    ControlIn(ControlRequest),
    /// A read from the queue of the background reader that waits this long at most.
    Queue(Duration),
}

#[derive(Debug, Clone, Copy, PartialEq, Eq, Structural)]
pub enum Direction {
    In,
    Out,
}

#[derive(Debug, Clone, Copy, PartialEq, Eq, Structural)]
pub enum RequestType {
    Standard,
    Class,
    Vendor,
    Reserved,
}

#[derive(Debug, Clone, Copy, PartialEq, Eq, Structural)]
pub enum Recipient {
    Device,
    Interface,
    Endpoint,
    Other,
}

/// The `bmRequestType` byte: the direction in the top bit, the type in the two
/// bits below it, the recipient in the lowest bits.
pub open spec fn request_type_byte(
    direction: Direction,
    request_type: RequestType,
    recipient: Recipient,
) -> int {
    let top: int = match direction {
        Direction::In => 1,
        Direction::Out => 0,
    };
    let middle: int = match request_type {
        RequestType::Standard => 0,
        RequestType::Class => 1,
        RequestType::Vendor => 2,
        RequestType::Reserved => 3,
    };
    let low: int = match recipient {
        Recipient::Device => 0,
        Recipient::Interface => 1,
        Recipient::Endpoint => 2,
        Recipient::Other => 3,
    };
    top * 0x80 + middle * 0x20 + low
}

/// Calls `rusb::request_type`, which puts its three arguments into the
/// `bmRequestType` byte of a control transfer.
#[verifier::external_body]
fn request_type_of(direction: Direction, request_type: RequestType, recipient: Recipient) -> (byte: u8)
    ensures
        byte == request_type_byte(direction, request_type, recipient),
{
    let d = match direction {
        Direction::In => rusb::Direction::In, Direction::Out => rusb::Direction::Out,
    };
    let t = match request_type {
        RequestType::Standard => rusb::RequestType::Standard,
        RequestType::Class => rusb::RequestType::Class,
        RequestType::Vendor => rusb::RequestType::Vendor,
        RequestType::Reserved => rusb::RequestType::Reserved,
    };
    let r = match recipient {
        Recipient::Device => rusb::Recipient::Device, Recipient::Other => rusb::Recipient::Other,
        Recipient::Interface => rusb::Recipient::Interface,
        Recipient::Endpoint => rusb::Recipient::Endpoint,
    }; rusb::request_type(d, t, r)
}

/// The value of a report request: the low byte of the report type above the report id.
pub open spec fn report_value(report_type: u16, report_id: u8) -> u16 {
    (report_type % 256 * 256 + report_id) as u16
}

/// The control transfer that carries a report of an interface.
pub open spec fn report_request(
    direction: Direction,
    interface: u8,
    report_type: u16,
    report_id: u8,
) -> ControlRequest {
    ControlRequest {
        request_type: request_type_byte(direction, RequestType::Class, Recipient::Interface) as u8,
        request: match direction {
            Direction::In => HID_REQ_GET_REPORT,
            Direction::Out => HID_REQ_SET_REPORT,
        },
        value: report_value(report_type, report_id),
        index: interface as u16,
        timeout: Duration { secs: 0, nanos: 500_000_000 },
    }
}

fn make_report_request(
    direction: Direction,
    interface: u8,
    report_type: u16,
    report_id: u8,
) -> (r: ControlRequest)
    ensures
        r == report_request(direction, interface, report_type, report_id),
{
    let id: u16 = report_id as u16;
    assert((report_type << 8u16) | id == (report_type % 256) * 256 + id) by (bit_vector)
        requires
            id < 256,
    ;
    ControlRequest {
        request_type: request_type_of(direction, RequestType::Class, Recipient::Interface),
        request: match direction {
            Direction::In => HID_REQ_GET_REPORT,
            Direction::Out => HID_REQ_SET_REPORT,
        },
        value: (report_type << 8u16) | id,
        index: interface as u16,
        timeout: Duration::from_millis(CONTROL_TIMEOUT_MILLIS),
    }
}

impl<U> LibusbTransport<U> {
    /// A transport over an interface that has been claimed.
    pub fn open(handle: U, interface: u8, ep_in: u8, product_string: Option<String>) -> (t: Self)
        ensures
            t == (LibusbTransport { handle, interface, ep_in, product_string }),
    {
        LibusbTransport { handle, interface, ep_in, product_string }
    }

    /// The control transfer that sends `data` as a report. The first byte is the report id.
    pub fn set_report(&self, report_type: u16, data: &[u8]) -> (r: Result<ControlRequest, HidError>)
        ensures
            data@.len() == 0 <==> r is Err,
            r matches Err(e) ==> e == HidError::InvalidZeroSizeData,
            r matches Ok(request) ==> request == report_request(
                Direction::Out,
                self.interface,
                report_type,
                data@[0],
            ),
    {
        if data.len() == 0 {
            return Err(HidError::InvalidZeroSizeData);
        }
        Ok(make_report_request(Direction::Out, self.interface, report_type, data[0]))
    }

    /// The control transfer that asks for a report. The first byte of `buf` is the report id.
    pub fn get_report(&self, report_type: u16, buf: &[u8]) -> (r: Result<ControlRequest, HidError>)
        ensures
            buf@.len() == 0 <==> r is Err,
            r matches Err(e) ==> e == HidError::InvalidZeroSizeData,
            r matches Ok(request) ==> request == report_request(
                Direction::In,
                self.interface,
                report_type,
                buf@[0],
            ),
    {
        if buf.len() == 0 {
            return Err(HidError::InvalidZeroSizeData);
        }
        Ok(make_report_request(Direction::In, self.interface, report_type, buf[0]))
    }
}

/// What a control transfer comes to: the number of bytes, or the error as a HID error.
pub fn control_result(result: Result<usize, UsbError>) -> (r: Result<usize, HidError>)
    ensures
        result matches Ok(n) ==> r == Ok::<usize, HidError>(n),
        result matches Err(err) ==> (r matches Err(HidError::HidApiError { message }) && message@
            == "libusb: "@ + err.text()),
{
    match result {
        Ok(n) => Ok(n),
        Err(err) => Err(rusb_to_hid(err)),
    }
}

/// How long a read waits at most; a negative limit stands for an hour.
pub open spec fn read_limit(timeout_ms: i32) -> Duration {
    if timeout_ms < 0 {
        Duration { secs: 3600, nanos: 0 }
    } else {
        Duration { secs: (timeout_ms / 1000) as u64, nanos: (timeout_ms % 1000 * 1_000_000) as u32 }
    }
}

fn make_read_limit(timeout_ms: i32) -> (d: Duration)
    ensures
        d == read_limit(timeout_ms),
        d.wf(),
{
    if timeout_ms < 0 {
        Duration::from_secs(UNLIMITED_READ_SECS)
    } else {
        Duration::from_millis(timeout_ms as u64)
    }
}

/// What asking for the name of the product comes to.
pub enum ProductString {
    /// The hidapi device is to be asked.
    AskHidapi,
    Known(Option<String>),
}

/// The name of a product that a hidapi device reported; nothing where it could not be read.
pub fn reported_name(reply: Result<Option<String>, HidError>) -> (name: Option<String>)
    ensures
        name == match reply {
            Ok(name) => name,
            Err(_) => None,
        },
{
    match reply {
        Ok(name) => name,
        Err(_) => None,
    }
}

impl<D, U> HidTransport<D, U> {
    pub open spec fn debug_text(self) -> Seq<char> {
        match self {
            HidTransport::Hidapi(_) => "HidTransport::Hidapi(..)"@,
            HidTransport::Libusb(t) => "HidTransport::Libusb { interface: "@ + crate::text::decimal(
                t.interface as nat,
            ) + ", ep_in: 0x"@ + crate::text::hex_byte(t.ep_in) + " }"@,
        }
    }

    pub fn is_libusb(&self) -> (b: bool)
        ensures
            b == (self is Libusb),
    {
        match self {
            HidTransport::Hidapi(_) => false,
            HidTransport::Libusb(_) => true,
        }
    }

    /// How `data` is written as an output report.
    pub fn write(&self, data: &[u8]) -> (r: Result<TransportRequest, HidError>)
        ensures
            self is Hidapi ==> r == Ok::<TransportRequest, HidError>(TransportRequest::Hidapi),
            self matches HidTransport::Libusb(t) ==> r == (if data@.len() == 0 {
                Err(HidError::InvalidZeroSizeData)
            } else {
                Ok(
                    TransportRequest::ControlOut(
                        report_request(Direction::Out, t.interface, HID_REPORT_TYPE_OUTPUT, data@[0]),
                    ),
                )
            }),
    {
        match self {
            HidTransport::Hidapi(_) => Ok(TransportRequest::Hidapi),
            HidTransport::Libusb(t) => match t.set_report(HID_REPORT_TYPE_OUTPUT, data) {
                Ok(request) => Ok(TransportRequest::ControlOut(request)),
                Err(e) => Err(e),
            },
        }
    }

    /// How a packet is read within `timeout_ms` milliseconds.
    pub fn read_timeout(&self, timeout_ms: i32) -> (r: TransportRequest)
        ensures
            r == match self {
                HidTransport::Hidapi(_) => TransportRequest::Hidapi,
                HidTransport::Libusb(_) => TransportRequest::Queue(read_limit(timeout_ms)),
            },
    {
        match self {
            HidTransport::Hidapi(_) => TransportRequest::Hidapi,
            HidTransport::Libusb(_) => TransportRequest::Queue(make_read_limit(timeout_ms)),
        }
    }

    /// How `data` is sent as a feature report.
    pub fn send_feature_report(&self, data: &[u8]) -> (r: Result<TransportRequest, HidError>)
        ensures
            self is Hidapi ==> r == Ok::<TransportRequest, HidError>(TransportRequest::Hidapi),
            self matches HidTransport::Libusb(t) ==> r == (if data@.len() == 0 {
                Err(HidError::InvalidZeroSizeData)
            } else {
                Ok(
                    TransportRequest::ControlOut(
                        report_request(
                            Direction::Out,
                            t.interface,
                            HID_REPORT_TYPE_FEATURE,
                            data@[0],
                        ),
                    ),
                )
            }),
    {
        match self {
            HidTransport::Hidapi(_) => Ok(TransportRequest::Hidapi),
            HidTransport::Libusb(t) => match t.set_report(HID_REPORT_TYPE_FEATURE, data) {
                Ok(request) => Ok(TransportRequest::ControlOut(request)),
                Err(e) => Err(e),
            },
        }
    }

    /// How an input report is asked for. The first byte of `buf` is the report id.
    pub fn get_input_report(&self, buf: &[u8]) -> (r: Result<TransportRequest, HidError>)
        ensures
            self is Hidapi ==> r == Ok::<TransportRequest, HidError>(TransportRequest::Hidapi),
            self matches HidTransport::Libusb(t) ==> r == (if buf@.len() == 0 {
                Err(HidError::InvalidZeroSizeData)
            } else {
                Ok(
                    TransportRequest::ControlIn(
                        report_request(Direction::In, t.interface, HID_REPORT_TYPE_INPUT, buf@[0]),
                    ),
                )
            }),
    {
        match self {
            HidTransport::Hidapi(_) => Ok(TransportRequest::Hidapi),
            HidTransport::Libusb(t) => match t.get_report(HID_REPORT_TYPE_INPUT, buf) {
                Ok(request) => Ok(TransportRequest::ControlIn(request)),
                Err(e) => Err(e),
            },
        }
    }

    /// The name of the product, or that the hidapi device knows it.
    pub fn product_string(&self) -> (name: ProductString)
        ensures
            name == match self {
                HidTransport::Hidapi(_) => ProductString::AskHidapi,
                HidTransport::Libusb(t) => ProductString::Known(t.product_string),
            },
    {
        match self {
            HidTransport::Hidapi(_) => ProductString::AskHidapi,
            HidTransport::Libusb(t) => ProductString::Known(t.product_string.clone()),
        }
    }

    /// The transport as it is shown for debugging.
    pub fn debug_string(&self) -> (s: String)
        ensures
            s@ == self.debug_text(),
    {
        match self {
            HidTransport::Hidapi(_) => String::from_str("HidTransport::Hidapi(..)"),
            HidTransport::Libusb(t) => {
                let mut s = String::from_str("HidTransport::Libusb { interface: ");
                s.append(decimal_string(t.interface as u64).as_str());
                s.append(", ep_in: 0x");
                s.append(hex_byte_string(t.ep_in).as_str());
                s.append(" }");
                s
            },
        }
    }
}

/// The id and the type of a report can be read back from the value of its
/// request, and the request goes to the interface that it was made for.
pub proof fn report_request_is_decodable(
    direction: Direction,
    interface: u8,
    report_type: u16,
    report_id: u8,
)
    requires
        report_type < 256,
    ensures
        report_request(direction, interface, report_type, report_id).value % 256 == report_id,
        report_request(direction, interface, report_type, report_id).value / 256 == report_type,
        report_request(direction, interface, report_type, report_id).index == interface,
        report_request(direction, interface, report_type, report_id).request_type >= 0x80
            <==> direction == Direction::In,
{
}

} // verus!
