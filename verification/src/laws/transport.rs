//! What holds of errors, of transfers, of the queue and of the background reader.
use vstd::prelude::*;
use crate::device::{low_32_bits, present};
use crate::errors::{DeviceError, HidError, UsbError};
use crate::queue::{after_delivery, after_read, handed_out, taken};
use crate::reader::{
    after_happening, is_gone, packets_in, step_after, EndpointRead, Happening, ReaderEvent,
    ReaderStep, Traffic,
};
use crate::text::{bytes_text, decimal, hex_byte, quoted};
use crate::transport::{
    read_limit, report_request, request_type_byte, Direction, HidTransport, LibusbTransport,
    Recipient, RequestType, HID_REPORT_TYPE_FEATURE, HID_REPORT_TYPE_INPUT, HID_REPORT_TYPE_OUTPUT,
};

verus! {

/// Each error of the USB layer has its own phrase.
pub proof fn usb_errors_are_worded(e: UsbError)
    ensures
        e is Io ==> e.text() == "Input/Output Error"@,
        e is InvalidParam ==> e.text() == "Invalid parameter"@,
        e is Access ==> e.text() == "Access denied (insufficient permissions)"@,
        e is NoDevice ==> e.text() == "No such device (it may have been disconnected)"@,
        e is NotFound ==> e.text() == "Entity not found"@,
        e is Busy ==> e.text() == "Resource busy"@,
        e is Timeout ==> e.text() == "Operation timed out"@,
        e is Overflow ==> e.text() == "Overflow"@,
        e is Pipe ==> e.text() == "Pipe error"@,
        e is Interrupted ==> e.text() == "System call interrupted (perhaps due to signal)"@,
        e is NoMem ==> e.text() == "Insufficient memory"@,
        e is NotSupported ==> e.text()
            == "Operation not supported or unimplemented on this platform"@,
        e is BadDescriptor ==> e.text() == "Malformed descriptor"@,
        e is Other ==> e.text() == "Other error"@,
{
}

/// An error of the HID layer shows its message or what was kept of it, and refuses an
/// output report exactly where its message holds one of two phrases.
pub proof fn hid_errors_show_their_message(e: HidError)
    ensures
        e matches HidError::HidApiError { message } ==> e.debug_text() == "HidApiError { message: "@
            + quoted(message@) + " }"@,
        e is InvalidZeroSizeData ==> e.debug_text() == "InvalidZeroSizeData"@,
        e matches HidError::Other { debug } ==> e.debug_text() == debug@,
        e.refuses_output_report() <==> (e matches HidError::HidApiError { message } && ((exists|
            a: Seq<char>,
            b: Seq<char>,
        |
            message@ == #[trigger] (a + "Incorrect function"@ + b)) || (exists|
            a: Seq<char>,
            b: Seq<char>,
        |
            message@ == #[trigger] (a + "(0x00000001)"@ + b)))),
{
    if let HidError::HidApiError { message } = e {
        crate::laws::text::occurrence_splits_the_text("Incorrect function"@, message@);
        crate::laws::text::occurrence_splits_the_text("(0x00000001)"@, message@);
    }
}

/// What the user is told of an error of the device.
pub proof fn device_errors_are_worded(e: DeviceError)
    ensures
        e matches DeviceError::HidError(h) ==> e.text() == h.debug_text(),
        e is NoDeviceFound ==> e.text() == "No device found."@,
        e is HeadSetOff ==> e.text() == "No response. Is the headset turned on?"@,
        e is NoResponse ==> e.text() == "No response."@,
        e matches DeviceError::UnknownResponse(bytes, length) ==> e.text() == "Unknown response: "@
            + bytes_text(bytes@) + " with length: "@ + decimal(length as nat),
{
}

/// A HID error becomes an error of the device unchanged.
pub proof fn hid_errors_are_passed_on(e: HidError)
    ensures
        <DeviceError as vstd::std_specs::convert::FromSpec<HidError>>::from_spec(e)
            == DeviceError::HidError(e),
        <DeviceError as vstd::std_specs::convert::FromSpec<HidError>>::obeys_from_spec(),
{
}

/// The three parts of a request type can be told apart: the direction is the top bit, the
/// type the next two, and the recipient the rest.
pub proof fn request_types_are_decodable(d: Direction, t: RequestType, r: Recipient)
    ensures
        0 <= request_type_byte(d, t, r) < 256,
        request_type_byte(d, t, r) / 128 == 1 <==> d is In,
        t is Standard <==> request_type_byte(d, t, r) / 32 % 4 == 0,
        t is Class <==> request_type_byte(d, t, r) / 32 % 4 == 1,
        t is Vendor <==> request_type_byte(d, t, r) / 32 % 4 == 2,
        t is Reserved <==> request_type_byte(d, t, r) / 32 % 4 == 3,
        r is Device <==> request_type_byte(d, t, r) % 32 == 0,
        r is Interface <==> request_type_byte(d, t, r) % 32 == 1,
        r is Endpoint <==> request_type_byte(d, t, r) % 32 == 2,
        r is Other <==> request_type_byte(d, t, r) % 32 == 3,
{
}

/// A report is a class request to its interface: sent with the request 9 and asked for
/// with the request 1, its type above its id, within half a second. Output, feature and
/// input reports are of the types 2, 3 and 1.
pub proof fn reports_are_class_requests(interface: u8, report_type: u16, id: u8)
    requires
        report_type < 256,
    ensures
        ({
            let sent = report_request(Direction::Out, interface, report_type, id);
            let asked = report_request(Direction::In, interface, report_type, id);
            &&& sent.request_type == 0x21
            &&& asked.request_type == 0xa1
            &&& sent.request == 9
            &&& asked.request == 1
            &&& sent.value == 256 * report_type + id
            &&& asked.value == 256 * report_type + id
            &&& sent.index == interface
            &&& asked.index == interface
            &&& sent.timeout.total_nanos() == 500 * 1_000_000
            &&& asked.timeout.total_nanos() == 500 * 1_000_000
            &&& sent.timeout.wf()
            &&& asked.timeout.wf()
        }),
        HID_REPORT_TYPE_OUTPUT == 2,
        HID_REPORT_TYPE_FEATURE == 3,
        HID_REPORT_TYPE_INPUT == 1,
{
}

/// Of a report type that does not fit, the low byte counts.
pub proof fn report_types_keep_their_low_byte(d: Direction, interface: u8, report_type: u16, id: u8)
    ensures
        report_request(d, interface, report_type, id) == report_request(
            d,
            interface,
            (report_type % 256) as u16,
            id,
        ),
{
}

/// A read waits for as many milliseconds as it is given, and for an hour where that is
/// negative.
pub proof fn reads_wait_as_long_as_told(timeout_ms: i32)
    ensures
        read_limit(timeout_ms).wf(),
        timeout_ms >= 0 ==> read_limit(timeout_ms).total_nanos() == timeout_ms * 1_000_000,
        timeout_ms < 0 ==> read_limit(timeout_ms).total_nanos() == 3600 * 1_000_000_000,
{
}

/// A transport is shown by its kind, and a claimed interface by its two numbers.
pub proof fn transports_are_shown<D, U>(d: D, t: LibusbTransport<U>)
    ensures
        HidTransport::<D, U>::Hidapi(d).debug_text() == "HidTransport::Hidapi(..)"@,
        HidTransport::<D, U>::Libusb(t).debug_text() == "HidTransport::Libusb { interface: "@
            + decimal(t.interface as nat) + ", ep_in: 0x"@ + hex_byte(t.ep_in) + " }"@,
{
}

/// A limit in milliseconds is kept where it fits into 32 bits with a sign, and otherwise
/// is off by a multiple of two to the 32nd.
pub proof fn limits_keep_their_low_bits(n: int)
    ensures
        -0x8000_0000 <= low_32_bits(n) < 0x8000_0000,
        (n - low_32_bits(n)) % 0x1_0000_0000 == 0,
        0 <= n < 0x8000_0000 ==> low_32_bits(n) == n,
{
}

/// Of packets that may be missing, exactly those that are there are kept, in order.
pub proof fn present_packets_are_kept(packets: Seq<Option<Vec<u8>>>, packet: Vec<u8>)
    ensures
        present(Seq::empty()).len() == 0,
        present(packets.push(Some(packet))) == present(packets).push(packet),
        present(packets.push(None)) == present(packets),
{
    assert(packets.push(Some(packet)).drop_last() =~= packets);
    assert(packets.push(None).drop_last() =~= packets);
}

/// A packet that is delivered comes last, and the one that is read is the first, of which
/// the buffer takes as much as it has room for.
pub proof fn queue_is_first_in_first_out(queue: Seq<Seq<u8>>, packet: Seq<u8>, room: nat)
    ensures
        after_delivery(queue, packet).len() == queue.len() + 1,
        after_delivery(queue, packet).last() == packet,
        after_delivery(queue, packet).drop_last() == queue,
        queue.len() > 0 ==> seq![queue[0]] + after_read(queue) == queue,
        queue.len() == 0 ==> after_read(queue) == queue,
        taken(packet, room) <= room,
        taken(packet, room) <= packet.len(),
        taken(packet, room) == room || taken(packet, room) == packet.len(),
        handed_out(packet, room).len() == taken(packet, room),
        forall|i: int| 0 <= i < taken(packet, room) ==> handed_out(packet, room)[i] == packet[i],
{
    assert(after_delivery(queue, packet).drop_last() =~= queue);
    if queue.len() > 0 {
        assert(seq![queue[0]] + after_read(queue) =~= queue);
    }
}

/// The background reader reads until it is told to stop or the device is gone, which the
/// errors `NoDevice` and `Pipe` show and no other. A packet of any size is shown to the
/// hook, then queued, and then the next is read.
pub proof fn reader_takes_these_steps(stop: bool, n: usize, e: UsbError)
    ensures
        stop ==> step_after(ReaderEvent::Told { stop }) is End,
        !stop ==> step_after(ReaderEvent::Told { stop }) is Read,
        n > 0 ==> step_after(ReaderEvent::HasRead(Ok(n))) == ReaderStep::CallHook(n),
        n == 0 ==> step_after(ReaderEvent::HasRead(Ok(n))) is CheckStop,
        e is NoDevice || e is Pipe ==> step_after(ReaderEvent::HasRead(Err(e))) is End,
        !(e is NoDevice || e is Pipe) ==> step_after(ReaderEvent::HasRead(Err(e))) is CheckStop,
        step_after(ReaderEvent::HookCalled(n)) == ReaderStep::Queue(n),
        step_after(ReaderEvent::Queued) is CheckStop,
        is_gone(Err(e)) <==> e is NoDevice || e is Pipe,
        !is_gone(Ok(n)),
{
}

/// A read that brings bytes brings one packet, which is those bytes; any other read
/// brings none. Nothing but the next step of the background reader happens at once.
pub proof fn reads_bring_packets(reads: Seq<EndpointRead>, read: EndpointRead, t: Traffic, stop: bool)
    ensures
        packets_in(Seq::empty()).len() == 0,
        read.result matches Ok(n) ==> n > 0 ==> packets_in(reads.push(read)) == packets_in(
            reads,
        ).push(read.buf.take(n as int)),
        !(read.result matches Ok(n) && n > 0) ==> packets_in(reads.push(read)) == packets_in(reads),
        t.step matches ReaderStep::CallHook(n) ==> after_happening(
            t,
            Happening::Reader { stop, read },
        ).hooked == t.hooked.push(t.buf.take(n as int)),
        !(t.step is CallHook) ==> after_happening(t, Happening::Reader { stop, read }).hooked
            == t.hooked,
        !(t.step is Queue) ==> after_happening(t, Happening::Reader { stop, read }).uses == t.uses,
{
    assert(reads.push(read).drop_last() =~= reads);
}

} // verus!
