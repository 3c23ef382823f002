//! Errors of the USB layer, of the HID layer and of the device.
use vstd::prelude::*;
use vstd::string::*;
use crate::text::{bytes_string, contains_text, decimal_string, occurs_in};

verus! {

/// Why a USB transfer failed.
#[derive(Debug, Clone, Copy, PartialEq, Eq, Structural)]
pub enum UsbError {
    Io,
    InvalidParam,
    Access,
    NoDevice,
    NotFound,
    Busy,
    Timeout,
    Overflow,
    Pipe,
    Interrupted,
    NoMem,
    NotSupported,
    BadDescriptor,
    Other,
}

/// Why a HID operation failed. Of an error that is only passed on, its `Debug`
/// text is kept.
#[derive(PartialEq, Eq)]
pub enum HidError {
    HidApiError { message: String },
    InvalidZeroSizeData,
    Other { debug: String },
}

/// Why the headset could not be reached or understood.
#[derive(PartialEq, Eq)]
pub enum DeviceError {
    HidError(HidError),
    NoDeviceFound(),
    HeadSetOff(),
    NoResponse(),
    UnknownResponse([u8; 8], usize),
}

impl UsbError {
    pub open spec fn text(self) -> Seq<char> {
        match self {
            UsbError::Io => "Input/Output Error"@,
            UsbError::InvalidParam => "Invalid parameter"@,
            UsbError::Access => "Access denied (insufficient permissions)"@,
            UsbError::NoDevice => "No such device (it may have been disconnected)"@,
            UsbError::NotFound => "Entity not found"@,
            UsbError::Busy => "Resource busy"@,
            UsbError::Timeout => "Operation timed out"@,
            UsbError::Overflow => "Overflow"@,
            UsbError::Pipe => "Pipe error"@,
            UsbError::Interrupted => "System call interrupted (perhaps due to signal)"@,
            UsbError::NoMem => "Insufficient memory"@,
            UsbError::NotSupported =>
                "Operation not supported or unimplemented on this platform"@,
            UsbError::BadDescriptor => "Malformed descriptor"@,
            UsbError::Other => "Other error"@,
        }
    }
}

/// Shows an error with the `Display` of `rusb::Error`, which writes one fixed
/// phrase for each kind of error.
#[verifier::external_body]
fn usb_error_string(err: UsbError) -> (s: String)
    ensures
        s@ == err.text(),
{
    let e = match err {
        UsbError::Io => rusb::Error::Io, UsbError::InvalidParam => rusb::Error::InvalidParam,
        UsbError::Access => rusb::Error::Access, UsbError::NoDevice => rusb::Error::NoDevice,
        UsbError::NotFound => rusb::Error::NotFound, UsbError::Busy => rusb::Error::Busy,
        UsbError::Timeout => rusb::Error::Timeout, UsbError::Overflow => rusb::Error::Overflow,
        UsbError::Pipe => rusb::Error::Pipe, UsbError::Interrupted => rusb::Error::Interrupted,
        UsbError::NoMem => rusb::Error::NoMem, UsbError::Other => rusb::Error::Other,
        UsbError::NotSupported => rusb::Error::NotSupported,
        UsbError::BadDescriptor => rusb::Error::BadDescriptor,
    };
    e.to_string()
}

/// Formats a `hidapi::HidError::HidApiError` with this message with the `Debug`
/// of `hidapi::HidError`: the name of the variant and the message, quoted.
#[verifier::external_body]
fn hid_api_error_debug(message: &str) -> (s: String)
    ensures
        s@ == "HidApiError { message: "@ + crate::text::quoted(message@) + " }"@,
{
    format!("{:?}", hidapi::HidError::HidApiError { message: message.to_string() })
}

/// The HID error that a failed USB transfer is reported as.
pub fn rusb_to_hid(err: UsbError) -> (e: HidError)
    ensures
        e matches HidError::HidApiError { message } && message@ == "libusb: "@ + err.text(),
{
    let mut message = String::from_str("libusb: ");
    message.append(usb_error_string(err).as_str());
    HidError::HidApiError { message }
}

impl HidError {
    pub open spec fn debug_text(self) -> Seq<char> {
        match self {
            HidError::HidApiError { message } => "HidApiError { message: "@ + crate::text::quoted(
                message@,
            ) + " }"@,
            HidError::InvalidZeroSizeData => "InvalidZeroSizeData"@,
            HidError::Other { debug } => debug@,
        }
    }

    /// Whether the error is the one with which the HID stack of Windows refuses
    /// an output report to a device that takes feature reports only.
    pub open spec fn refuses_output_report(self) -> bool {
        match self {
            HidError::HidApiError { message } => occurs_in("Incorrect function"@, message@)
                || occurs_in("(0x00000001)"@, message@),
            _ => false,
        }
    }

    pub fn debug_string(&self) -> (s: String)
        ensures
            s@ == self.debug_text(),
    {
        match self {
            HidError::HidApiError { message } => hid_api_error_debug(message.as_str()),
            HidError::InvalidZeroSizeData => String::from_str("InvalidZeroSizeData"),
            HidError::Other { debug } => debug.clone(),
        }
    }

    pub fn is_output_report_refusal(&self) -> (b: bool)
        ensures
            b == self.refuses_output_report(),
    {
        match self {
            HidError::HidApiError { message } => contains_text(
                message.as_str(),
                "Incorrect function",
            ) || contains_text(message.as_str(), "(0x00000001)"),
            _ => false,
        }
    }
}

impl DeviceError {
    /// What the user is told.
    pub open spec fn text(self) -> Seq<char> {
        match self {
            DeviceError::HidError(e) => e.debug_text(),
            DeviceError::NoDeviceFound() => "No device found."@,
            DeviceError::HeadSetOff() => "No response. Is the headset turned on?"@,
            DeviceError::NoResponse() => "No response."@,
            DeviceError::UnknownResponse(bytes, length) => "Unknown response: "@ + crate::text::bytes_text(bytes@)
                + " with length: "@ + crate::text::decimal(length as nat),
        }
    }

    /// The error as it is shown for debugging, which is what the user is told.
    pub fn debug_string(&self) -> (s: String)
        ensures
            s@ == self.text(),
    {
        self.to_string()
    }

    pub fn to_string(&self) -> (s: String)
        ensures
            s@ == self.text(),
    {
        match self {
            DeviceError::HidError(e) => e.debug_string(),
            DeviceError::NoDeviceFound() => String::from_str("No device found."),
            DeviceError::HeadSetOff() => String::from_str("No response. Is the headset turned on?"),
            DeviceError::NoResponse() => String::from_str("No response."),
            DeviceError::UnknownResponse(bytes, length) => {
                let mut s = String::from_str("Unknown response: ");
                s.append(bytes_string(bytes.as_slice()).as_str());
                s.append(" with length: ");
                s.append(decimal_string(*length as u64).as_str());
                s
            },
        }
    }
}

impl From<HidError> for DeviceError {
    fn from(e: HidError) -> (d: Self) {
        DeviceError::HidError(e)
    }
}

impl vstd::std_specs::convert::FromSpecImpl<HidError> for DeviceError {
    open spec fn obeys_from_spec() -> bool {
        true
    }

    open spec fn from_spec(e: HidError) -> Self {
        DeviceError::HidError(e)
    }
}

} // verus!
