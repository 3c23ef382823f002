//! Writing a packet to a headset.
//!
//! The headset is prepared before each packet, and the packet is then written as
//! an output report. On Windows some dongles take commands as feature reports only, and an output
//! report fails there with one particular error. The packet is then sent again
//! as a feature report.
use vstd::prelude::*;
use crate::errors::HidError;

verus! {

/// What is done next to write a packet.
pub enum WriteStep {
    /// The headset is prepared for a packet.
    Prepare,
    /// The packet is written as an output report.
    Write,
    /// The packet is sent as a feature report. The error stands if that fails too.
    SendFeatureReport(HidError),
    Done(Result<(), HidError>),
}

/// What has just happened while a packet is written.
pub enum WriteEvent {
    /// The packet is to be written.
    Asked,
    /// The headset has been prepared.
    Prepared,
    /// The packet has been written as an output report.
    Written(Result<usize, HidError>),
    /// The packet has been sent as a feature report, because the output report
    /// failed with this error.
    FeatureReportSent(HidError, Result<(), HidError>),
}

/// What follows once a packet has been written as an output report.
pub open spec fn after_write(on_windows: bool, written: Result<usize, HidError>) -> WriteStep {
    match written {
        Ok(_) => WriteStep::Done(Ok(())),
        Err(e) => if on_windows && e.refuses_output_report() {
            WriteStep::SendFeatureReport(e)
        } else {
            WriteStep::Done(Err(e))
        },
    }
}

/// What writing comes to once the packet has been sent as a feature report.
pub open spec fn feature_report_outcome(write_error: HidError, sent: Result<(), HidError>) -> Result<
    (),
    HidError,
> {
    match sent {
        Ok(_) => Ok(()),
        Err(_) => Err(write_error),
    }
}

/// What follows once a packet has been written as an output report.
pub fn write_hid_report(on_windows: bool, written: Result<usize, HidError>) -> (step: WriteStep)
    ensures
        step == after_write(on_windows, written),
{
    match written {
        Ok(_) => WriteStep::Done(Ok(())),
        Err(e) => {
            if on_windows && e.is_output_report_refusal() {
                WriteStep::SendFeatureReport(e)
            } else {
                WriteStep::Done(Err(e))
            }
        },
    }
}

/// What writing a packet comes to once it has been sent as a feature report
/// because the output report failed with `write_error`. If both fail, the error
/// of what was attempted first is returned.
pub fn after_feature_report(write_error: HidError, sent: Result<(), HidError>) -> (r: Result<
    (),
    HidError,
>)
    ensures
        r == feature_report_outcome(write_error, sent),
{
    match sent {
        Ok(()) => Ok(()),
        Err(_) => Err(write_error),
    }
}

/// What follows an event.
pub open spec fn write_step(on_windows: bool, event: WriteEvent) -> WriteStep {
    match event {
        WriteEvent::Asked => WriteStep::Prepare,
        WriteEvent::Prepared => WriteStep::Write,
        WriteEvent::Written(written) => after_write(on_windows, written),
        WriteEvent::FeatureReportSent(e, sent) => WriteStep::Done(feature_report_outcome(e, sent)),
    }
}

/// What follows an event.
pub fn next_write_step(on_windows: bool, event: WriteEvent) -> (step: WriteStep)
    ensures
        step == write_step(on_windows, event),
{
    match event {
        WriteEvent::Asked => WriteStep::Prepare,
        WriteEvent::Prepared => WriteStep::Write,
        WriteEvent::Written(written) => write_hid_report(on_windows, written),
        WriteEvent::FeatureReportSent(e, sent) => WriteStep::Done(after_feature_report(e, sent)),
    }
}

/// What writing a packet comes to, where `written` and `sent` are what the output
/// report and the feature report come to.
pub open spec fn write_outcome(
    on_windows: bool,
    written: Result<usize, HidError>,
    sent: Result<(), HidError>,
) -> Result<(), HidError> {
    match after_write(on_windows, written) {
        WriteStep::SendFeatureReport(e) => feature_report_outcome(e, sent),
        step => step->Done_0,
    }
}

/// What comes of the two ways to write a packet: the output report, and the feature
/// report if it is sent.
pub struct PacketWrite {
    pub written: Result<usize, HidError>,
    pub sent: Result<(), HidError>,
}

/// The steps from this one on.
pub open spec fn steps_from(on_windows: bool, w: PacketWrite, step: WriteStep) -> Seq<WriteStep>
    decreases
        match step {
            WriteStep::Prepare => 3int,
            WriteStep::Write => 2,
            WriteStep::SendFeatureReport(_) => 1,
            WriteStep::Done(_) => 0,
        },
{
    match step {
        WriteStep::Prepare => seq![step] + steps_from(
            on_windows,
            w,
            write_step(on_windows, WriteEvent::Prepared),
        ),
        WriteStep::Write => seq![step] + steps_from(
            on_windows,
            w,
            write_step(on_windows, WriteEvent::Written(w.written)),
        ),
        WriteStep::SendFeatureReport(e) => seq![step] + steps_from(
            on_windows,
            w,
            write_step(on_windows, WriteEvent::FeatureReportSent(e, w.sent)),
        ),
        WriteStep::Done(_) => seq![step],
    }
}

/// The steps in which a packet is written.
pub open spec fn packet_steps(on_windows: bool, w: PacketWrite) -> Seq<WriteStep> {
    steps_from(on_windows, w, write_step(on_windows, WriteEvent::Asked))
}

/// The steps in which packets are written one after another.
pub open spec fn all_steps(on_windows: bool, packets: Seq<PacketWrite>) -> Seq<WriteStep>
    decreases packets.len(),
{
    if packets.len() == 0 {
        Seq::empty()
    } else {
        all_steps(on_windows, packets.drop_last()) + packet_steps(on_windows, packets.last())
    }
}

/// A packet is written in these steps: the headset is prepared, the output report
/// is written, a feature report is sent where Windows refuses the output report,
/// and then it is done.
pub proof fn packet_is_written_in_steps(on_windows: bool, w: PacketWrite)
    ensures
        packet_steps(on_windows, w) == if on_windows && w.written is Err
            && w.written->Err_0.refuses_output_report() {
            seq![
                WriteStep::Prepare,
                WriteStep::Write,
                WriteStep::SendFeatureReport(w.written->Err_0),
                WriteStep::Done(write_outcome(on_windows, w.written, w.sent)),
            ]
        } else {
            seq![
                WriteStep::Prepare,
                WriteStep::Write,
                WriteStep::Done(write_outcome(on_windows, w.written, w.sent)),
            ]
        },
{
    reveal_with_fuel(steps_from, 4);
    if on_windows && w.written is Err && w.written->Err_0.refuses_output_report() {
        assert(packet_steps(on_windows, w) =~= seq![
            WriteStep::Prepare,
            WriteStep::Write,
            WriteStep::SendFeatureReport(w.written->Err_0),
            WriteStep::Done(write_outcome(on_windows, w.written, w.sent)),
        ]);
    } else {
        assert(packet_steps(on_windows, w) =~= seq![
            WriteStep::Prepare,
            WriteStep::Write,
            WriteStep::Done(write_outcome(on_windows, w.written, w.sent)),
        ]);
    }
}

/// However many packets are written, the headset is prepared directly before each
/// output report, and never otherwise.
pub proof fn every_write_follows_a_preparation(
    on_windows: bool,
    packets: Seq<PacketWrite>,
    i: int,
)
    requires
        0 <= i < all_steps(on_windows, packets).len(),
    ensures
        all_steps(on_windows, packets)[i] is Write ==> i > 0 && all_steps(
            on_windows,
            packets,
        )[i - 1] is Prepare,
        all_steps(on_windows, packets)[i] is Prepare ==> i + 1 < all_steps(
            on_windows,
            packets,
        ).len() && all_steps(on_windows, packets)[i + 1] is Write,
    decreases packets.len(),
{
    let before = all_steps(on_windows, packets.drop_last());
    packet_is_written_in_steps(on_windows, packets.last());
    if i < before.len() {
        every_write_follows_a_preparation(on_windows, packets.drop_last(), i);
    }
}

/// Every failed write is reported with the error of the output report. A write
/// succeeds exactly where the output report does, or where Windows refuses it and
/// the feature report succeeds.
pub proof fn failed_write_keeps_first_error(
    on_windows: bool,
    written: Result<usize, HidError>,
    sent: Result<(), HidError>,
)
    ensures
        write_outcome(on_windows, written, sent) matches Err(e) ==> written == Err::<
            usize,
            HidError,
        >(e),
        write_outcome(on_windows, written, sent) is Ok <==> written is Ok || (on_windows
            && written->Err_0.refuses_output_report() && sent is Ok),
{
}

} // verus!
