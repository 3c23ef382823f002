//! What holds of settings, of writing a packet and of connecting.
use vstd::prelude::*;
use crate::command::{failure_text, is_plan, is_setting, unsupported_text, CommandPlan};
use crate::connect::{
    attempt_text, connect_outcome, connect_run, connect_step, is_known, is_usable, search_step,
    verdict, ConnectEvent, ConnectStep, Trial,
};
use crate::errors::{DeviceError, HidError};
use crate::events::DeviceEvent;
use crate::query::{query_outcome, reply_of, response_wait, written_step, QueryReply, QueryStep,
    ResponseWait};
use crate::register::DeviceEntry;
use crate::write::{
    all_steps, packet_steps, write_outcome, write_step, PacketWrite, WriteEvent, WriteStep,
};

verus! {

/// A setting for which the headset has a packet is that packet, sent as it is, and is
/// never refused; one for which it has none is refused, and nothing is sent. What is no
/// setting does nothing, whatever packet there is.
pub proof fn settings_are_sent_or_refused(
    command: DeviceEvent,
    packet: Option<Vec<u8>>,
    plan: CommandPlan,
)
    requires
        is_plan(command, packet, plan),
    ensures
        ({
            let setting = command is AutomaticShutdownAfter
                || command is Muted
                || command is SideToneOn
                || command is SideToneVolume
                || command is VoicePrompt
                || command is SurroundSound
                || command is Silent
                || command is NoiseGateActive;
            &&& is_setting(command) <==> setting
            &&& setting ==> (packet matches Some(p) ==> plan == CommandPlan::Send(p))
            &&& plan matches CommandPlan::Send(p) ==> setting && packet == Some(p)
            &&& setting && packet is None ==> plan is Unsupported
            &&& plan is Unsupported ==> setting && packet is None
            &&& !setting ==> plan is Nothing
            &&& plan is Nothing ==> !setting
        }),
{
}

/// A refusal names the setting that is refused.
pub proof fn refusals_name_the_setting(command: DeviceEvent, plan: CommandPlan)
    requires
        is_plan(command, None, plan),
    ensures
        command is AutomaticShutdownAfter ==> (plan matches CommandPlan::Unsupported(s) && s@
            == "ERROR: Automatic shutdown is not supported on this device"@),
        command is Muted ==> (plan matches CommandPlan::Unsupported(s) && s@
            == "ERROR: Microphone mute control is not supported on this device (hardware button only)"@),
        command is SideToneOn ==> (plan matches CommandPlan::Unsupported(s) && s@
            == "ERROR: Side tone control is not supported on this device"@),
        command is SideToneVolume ==> (plan matches CommandPlan::Unsupported(s) && s@
            == "ERROR: Side tone volume control is not supported on this device"@),
        command is VoicePrompt ==> (plan matches CommandPlan::Unsupported(s) && s@
            == "ERROR: Voice prompt control is not supported on this device"@),
        command is SurroundSound ==> (plan matches CommandPlan::Unsupported(s) && s@
            == "ERROR: Surround sound control is not supported on this device"@),
        command is Silent ==> (plan matches CommandPlan::Unsupported(s) && s@
            == "ERROR: Playback mute control is not supported on this device"@),
        command is NoiseGateActive ==> (plan matches CommandPlan::Unsupported(s) && s@
            == "ERROR: Activating noise gate is not supported on this device"@),
{
}

/// What the user is told of a failed write names the setting.
pub proof fn failures_name_the_setting(command: DeviceEvent)
    ensures
        command is AutomaticShutdownAfter ==> failure_text(command) == "Failed to set automatic shutdown with error: "@,
        command is Muted ==> failure_text(command) == "Failed to mute with error: "@,
        command is SideToneOn ==> failure_text(command) == "Failed to enable side tone with error: "@,
        command is SideToneVolume ==> failure_text(command) == "Failed to set side tone volume with error: "@,
        command is VoicePrompt ==> failure_text(command) == "Failed to enable voice prompt with error: "@,
        command is SurroundSound ==> failure_text(command) == "Failed to set surround sound with error: "@,
        command is Silent ==> failure_text(command) == "Failed to mute playback with error: "@,
        command is NoiseGateActive ==> failure_text(command) == "Failed to activate noise gate with error: "@,
{
}

/// Refusals of different settings read differently, and so do failures.
pub proof fn settings_read_differently(a: DeviceEvent, b: DeviceEvent)
    requires
        is_setting(a),
        is_setting(b),
        unsupported_text(a) == unsupported_text(b) || failure_text(a) == failure_text(b),
    ensures
        crate::laws::same_property(a, b),
{
    reveal_strlit("ERROR: Automatic shutdown is not supported on this device");
    assert("ERROR: Automatic shutdown is not supported on this device"@.len() == 57);
    reveal_strlit("Failed to set automatic shutdown with error: ");
    assert("Failed to set automatic shutdown with error: "@.len() == 45);
    reveal_strlit("ERROR: Microphone mute control is not supported on this device (hardware button only)");
    assert("ERROR: Microphone mute control is not supported on this device (hardware button only)"@.len() == 85);
    reveal_strlit("Failed to mute with error: ");
    assert("Failed to mute with error: "@.len() == 27);
    reveal_strlit("ERROR: Side tone control is not supported on this device");
    assert("ERROR: Side tone control is not supported on this device"@.len() == 56);
    reveal_strlit("Failed to enable side tone with error: ");
    assert("Failed to enable side tone with error: "@.len() == 39);
    reveal_strlit("ERROR: Side tone volume control is not supported on this device");
    assert("ERROR: Side tone volume control is not supported on this device"@.len() == 63);
    reveal_strlit("Failed to set side tone volume with error: ");
    assert("Failed to set side tone volume with error: "@.len() == 43);
    reveal_strlit("ERROR: Voice prompt control is not supported on this device");
    assert("ERROR: Voice prompt control is not supported on this device"@.len() == 59);
    reveal_strlit("Failed to enable voice prompt with error: ");
    assert("Failed to enable voice prompt with error: "@.len() == 42);
    reveal_strlit("ERROR: Surround sound control is not supported on this device");
    assert("ERROR: Surround sound control is not supported on this device"@.len() == 61);
    reveal_strlit("Failed to set surround sound with error: ");
    assert("Failed to set surround sound with error: "@.len() == 41);
    reveal_strlit("ERROR: Playback mute control is not supported on this device");
    assert("ERROR: Playback mute control is not supported on this device"@.len() == 60);
    reveal_strlit("Failed to mute playback with error: ");
    assert("Failed to mute playback with error: "@.len() == 36);
    reveal_strlit("ERROR: Activating noise gate is not supported on this device");
    assert("ERROR: Activating noise gate is not supported on this device"@.len() == 60);
    reveal_strlit("Failed to activate noise gate with error: ");
    assert("Failed to activate noise gate with error: "@.len() == 42);
    assert("ERROR: Playback mute control is not supported on this device"@[7] != "ERROR: Activating noise gate is not supported on this device"@[7]);
    assert("Failed to enable voice prompt with error: "@[10] != "Failed to activate noise gate with error: "@[10]);
}

/// A write is prepared, then made, and is done at once unless Windows refuses the output
/// report with the error that its message shows; then a feature report is sent, and where
/// that fails too the first error stands.
pub proof fn writing_takes_these_steps(
    on_windows: bool,
    e: HidError,
    written: usize,
    sent: Result<(), HidError>,
)
    ensures
        write_step(on_windows, WriteEvent::Asked) is Prepare,
        write_step(on_windows, WriteEvent::Prepared) is Write,
        write_step(on_windows, WriteEvent::Written(Ok(written))) == WriteStep::Done(Ok(())),
        ({
            let refused = on_windows && (e matches HidError::HidApiError { message } && ((exists|
                a: Seq<char>,
                b: Seq<char>,
            |
                message@ == #[trigger] (a + "Incorrect function"@ + b)) || (exists|
                a: Seq<char>,
                b: Seq<char>,
            |
                message@ == #[trigger] (a + "(0x00000001)"@ + b))));
            &&& refused ==> write_step(on_windows, WriteEvent::Written(Err(e)))
                == WriteStep::SendFeatureReport(e)
            &&& !refused ==> write_step(on_windows, WriteEvent::Written(Err(e)))
                == WriteStep::Done(Err(e))
        }),
        sent is Ok ==> write_step(on_windows, WriteEvent::FeatureReportSent(e, sent))
            == WriteStep::Done(Ok(())),
        sent is Err ==> write_step(on_windows, WriteEvent::FeatureReportSent(e, sent))
            == WriteStep::Done(Err(e)),
{
    if let HidError::HidApiError { message } = e {
        crate::laws::text::occurrence_splits_the_text("Incorrect function"@, message@);
        crate::laws::text::occurrence_splits_the_text("(0x00000001)"@, message@);
    }
}

/// What a packet comes to is what its last step says, and packets are written one after
/// another.
pub proof fn packets_are_written_in_turn(
    on_windows: bool,
    packets: Seq<PacketWrite>,
    w: PacketWrite,
)
    ensures
        packet_steps(on_windows, w).last() == WriteStep::Done(
            write_outcome(on_windows, w.written, w.sent),
        ),
        packet_steps(on_windows, w)[0] is Prepare,
        packet_steps(on_windows, w)[1] is Write,
        w.written is Ok ==> write_outcome(on_windows, w.written, w.sent) is Ok,
        all_steps(on_windows, Seq::empty()).len() == 0,
        all_steps(on_windows, packets.push(w)) == all_steps(on_windows, packets) + packet_steps(
            on_windows,
            w,
        ),
{
    crate::write::packet_is_written_in_steps(on_windows, w);
    assert(packets.push(w).drop_last() =~= packets);
}

/// A response is read after fifty milliseconds, and waited for one second; nothing is
/// waited for where the packet could not be written.
pub proof fn queries_are_given_a_moment(
    wait: ResponseWait,
    e: HidError,
    events: Vec<DeviceEvent>,
)
    ensures
        response_wait().delay.total_nanos() == 50 * 1_000_000,
        response_wait().limit.total_nanos() == 1_000_000_000,
        response_wait().delay.wf(),
        response_wait().limit.wf(),
        written_step(wait, Ok(())) == QueryStep::Await(wait),
        written_step(wait, Err(e)) == QueryStep::Done(QueryReply::WriteFailed(e)),
        reply_of(Some(events)) == QueryReply::Events(events),
        reply_of(None) is NoResponse,
        query_outcome(wait, Ok(()), Some(events)) == QueryReply::Events(events),
        query_outcome(wait, Ok(()), None) is NoResponse,
        query_outcome(wait, Err(e), Some(events)) == QueryReply::WriteFailed(e),
{
}

/// The handler that is made for a headset is that of the first entry of the register
/// with both its vendor id and its product id; where no entry has both, connecting fails.
pub proof fn handler_is_that_of_the_headset<F, O>(
    register: Seq<DeviceEntry<F, O>>,
    vendor_id: u16,
    product_id: u16,
)
    requires
        register.len() <= usize::MAX,
    ensures
        ({
            let step = connect_step(register, ConnectEvent::Try { vendor_id, product_id });
            let known = exists|i: int|
                0 <= i < register.len() && (#[trigger] register[i]).vendor_ids@.contains(vendor_id)
                    && register[i].product_ids@.contains(product_id);
            &&& known <==> step is Build
            &&& !known ==> step == ConnectStep::Fail(DeviceError::NoDeviceFound())
            &&& step matches ConnectStep::Build(place) ==> {
                &&& place < register.len()
                &&& register[place as int].vendor_ids@.contains(vendor_id)
                &&& register[place as int].product_ids@.contains(product_id)
                &&& forall|j: int|
                    0 <= j < place ==> !((#[trigger] register[j]).vendor_ids@.contains(vendor_id)
                        && register[j].product_ids@.contains(product_id))
            }
        }),
{
    crate::laws::discovery::found_entry_has_both_ids(register, vendor_id, product_id);
}

/// A headset that was claimed through libusb is taken at once. Any other is asked with
/// its third packet, and is taken exactly where that could be written and was answered
/// within the time; otherwise the next is tried. Where none is left, connecting fails.
pub proof fn headsets_must_answer<F, O>(
    register: Seq<DeviceEntry<F, O>>,
    packets: Vec<Vec<u8>>,
    e: HidError,
    events: Vec<DeviceEvent>,
)
    requires
        packets@.len() > 2,
    ensures
        connect_step(register, ConnectEvent::Built { is_libusb: true }) is Accept,
        connect_step(register, ConnectEvent::Built { is_libusb: false }) is FetchPackets,
        connect_step(register, ConnectEvent::Packets(packets)) == ConnectStep::Probe(packets@[2]),
        connect_step(register, ConnectEvent::Written(Ok(()))) matches ConnectStep::AwaitResponse(w)
            && w.delay.total_nanos() == 50 * 1_000_000 && w.limit.total_nanos() == 1_000_000_000,
        connect_step(register, ConnectEvent::Written(Err(e))) is Skip,
        connect_step(register, ConnectEvent::Response(Some(events))) is Accept,
        connect_step(register, ConnectEvent::Response(None)) is Skip,
        connect_step(register, ConnectEvent::NoneLeft) == ConnectStep::Fail(
            DeviceError::NoDeviceFound(),
        ),
{
}

/// A headset can be used exactly where some entry has both its ids and it was claimed
/// through libusb or was asked and answered. It is then taken; an unknown one ends
/// connecting, and any other is passed over.
pub proof fn usable_headsets_are_taken<F, O>(register: Seq<DeviceEntry<F, O>>, t: Trial)
    requires
        register.len() <= usize::MAX,
    ensures
        ({
            let known = exists|i: int|
                0 <= i < register.len() && (#[trigger] register[i]).vendor_ids@.contains(
                    t.vendor_id,
                ) && register[i].product_ids@.contains(t.product_id);
            let answers = t.is_libusb || (t.written is Ok && t.response is Some);
            &&& is_known(register, t) <==> known
            &&& is_usable(register, t) <==> known && answers
            &&& known && answers ==> verdict(register, t) is Accept
            &&& known && !answers ==> verdict(register, t) is Skip
            &&& !known ==> verdict(register, t) == ConnectStep::Fail(DeviceError::NoDeviceFound())
        }),
{
    handler_is_that_of_the_headset(register, t.vendor_id, t.product_id);
    reveal_with_fuel(crate::connect::verdict_from, 5);
}

/// Headsets are tried in turn from the first on, and what is found before the search
/// fails or succeeds is handed on unchanged.
pub proof fn headsets_are_tried_in_turn<F, O>(
    register: Seq<DeviceEntry<F, O>>,
    trials: Seq<Trial>,
    from: nat,
    e: DeviceError,
)
    ensures
        from >= trials.len() ==> connect_run(register, trials, from) == Err::<nat, DeviceError>(
            DeviceError::NoDeviceFound(),
        ),
        from < trials.len() && verdict(register, trials[from as int]) is Accept ==> connect_run(
            register,
            trials,
            from,
        ) == Ok::<nat, DeviceError>(from),
        from < trials.len() && verdict(register, trials[from as int]) is Skip ==> connect_run(
            register,
            trials,
            from,
        ) == connect_run(register, trials, from + 1),
        connect_outcome(register, Ok(trials)) == connect_run(register, trials, 0),
        connect_outcome(register, Err(e)) == Err::<nat, DeviceError>(e),
        search_step(Ok::<Seq<Trial>, DeviceError>(trials)) == Ok::<Seq<Trial>, ConnectStep>(trials),
        search_step(Err::<Seq<Trial>, DeviceError>(e)) == Err::<Seq<Trial>, ConnectStep>(
            ConnectStep::Fail(e),
        ),
{
}

/// An attempt is announced with the name of the headset, or with question marks.
pub proof fn attempts_name_the_headset(name: Option<String>)
    ensures
        name matches Some(n) ==> attempt_text(name) == "Try to connecting to "@ + n@,
        name is None ==> attempt_text(name) == "Try to connecting to "@ + "???"@,
{
}

} // verus!
