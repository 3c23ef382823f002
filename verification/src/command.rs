//! Settings: what is sent to a headset for each, and what the user is told.
use vstd::prelude::*;
use vstd::string::*;
use crate::errors::HidError;
use crate::events::DeviceEvent;

verus! {

/// What is done about a setting.
pub enum CommandPlan {
    /// The packet is written to the headset, in the steps of [`crate::write`].
    Send(Vec<u8>),
    /// The user is told that the headset does not take the setting.
    Unsupported(String),
    /// Nothing: the event is a report and no setting.
    Nothing,
}

/// Whether the event is a setting.
pub open spec fn is_setting(command: DeviceEvent) -> bool {
    match command {
        DeviceEvent::AutomaticShutdownAfter(_) => true,
        DeviceEvent::Muted(_) => true,
        DeviceEvent::SideToneOn(_) => true,
        DeviceEvent::SideToneVolume(_) => true,
        DeviceEvent::VoicePrompt(_) => true,
        DeviceEvent::SurroundSound(_) => true,
        DeviceEvent::Silent(_) => true,
        DeviceEvent::NoiseGateActive(_) => true,
        _ => false,
    }
}

/// What the user is told where the headset does not take the setting.
pub open spec fn unsupported_text(command: DeviceEvent) -> Seq<char> {
    match command {
        DeviceEvent::AutomaticShutdownAfter(_) =>
            "ERROR: Automatic shutdown is not supported on this device"@,
        DeviceEvent::Muted(_) =>
            "ERROR: Microphone mute control is not supported on this device (hardware button only)"@,
        DeviceEvent::SideToneOn(_) => "ERROR: Side tone control is not supported on this device"@,
        DeviceEvent::SideToneVolume(_) =>
            "ERROR: Side tone volume control is not supported on this device"@,
        DeviceEvent::VoicePrompt(_) =>
            "ERROR: Voice prompt control is not supported on this device"@,
        DeviceEvent::SurroundSound(_) =>
            "ERROR: Surround sound control is not supported on this device"@,
        DeviceEvent::Silent(_) => "ERROR: Playback mute control is not supported on this device"@,
        DeviceEvent::NoiseGateActive(_) =>
            "ERROR: Activating noise gate is not supported on this device"@,
        _ => ""@,
    }
}

/// What the user is told, before the error, where writing the setting failed.
pub open spec fn failure_text(command: DeviceEvent) -> Seq<char> {
    match command {
        DeviceEvent::AutomaticShutdownAfter(_) => "Failed to set automatic shutdown with error: "@,
        DeviceEvent::Muted(_) => "Failed to mute with error: "@,
        DeviceEvent::SideToneOn(_) => "Failed to enable side tone with error: "@,
        DeviceEvent::SideToneVolume(_) => "Failed to set side tone volume with error: "@,
        DeviceEvent::VoicePrompt(_) => "Failed to enable voice prompt with error: "@,
        DeviceEvent::SurroundSound(_) => "Failed to set surround sound with error: "@,
        DeviceEvent::Silent(_) => "Failed to mute playback with error: "@,
        DeviceEvent::NoiseGateActive(_) => "Failed to activate noise gate with error: "@,
        _ => ""@,
    }
}

/// Whether `plan` is what is done about a setting for which the headset has this packet.
pub open spec fn is_plan(command: DeviceEvent, packet: Option<Vec<u8>>, plan: CommandPlan) -> bool {
    if is_setting(command) {
        match packet {
            Some(p) => plan == CommandPlan::Send(p),
            None => plan matches CommandPlan::Unsupported(s) && s@ == unsupported_text(command),
        }
    } else {
        plan == CommandPlan::Nothing
    }
}

/// What is done about a setting for which the headset has this packet.
pub fn plan_command(command: DeviceEvent, packet: Option<Vec<u8>>) -> (plan: CommandPlan)
    ensures
        is_plan(command, packet, plan),
        is_setting(command) ==> (packet matches Some(p) ==> plan == CommandPlan::Send(p)),
        plan matches CommandPlan::Send(p) ==> is_setting(command) && packet == Some(p),
        plan is Unsupported <==> is_setting(command) && packet is None,
{
    let unsupported = match command {
        DeviceEvent::AutomaticShutdownAfter(_) =>
            "ERROR: Automatic shutdown is not supported on this device",
        DeviceEvent::Muted(_) =>
            "ERROR: Microphone mute control is not supported on this device (hardware button only)",
        DeviceEvent::SideToneOn(_) => "ERROR: Side tone control is not supported on this device",
        DeviceEvent::SideToneVolume(_) =>
            "ERROR: Side tone volume control is not supported on this device",
        DeviceEvent::VoicePrompt(_) =>
            "ERROR: Voice prompt control is not supported on this device",
        DeviceEvent::SurroundSound(_) =>
            "ERROR: Surround sound control is not supported on this device",
        DeviceEvent::Silent(_) => "ERROR: Playback mute control is not supported on this device",
        DeviceEvent::NoiseGateActive(_) =>
            "ERROR: Activating noise gate is not supported on this device",
        _ => return CommandPlan::Nothing,
    };
    match packet {
        Some(p) => CommandPlan::Send(p),
        None => CommandPlan::Unsupported(String::from_str(unsupported)),
    }
}

/// What the user is told once the packet of a setting has been written.
pub fn command_result(command: DeviceEvent, written: Result<(), HidError>) -> (r: Result<
    (),
    String,
>)
    requires
        is_setting(command),
    ensures
        written is Ok <==> r is Ok,
        written matches Err(e) ==> (r matches Err(s) && s@ == failure_text(command)
            + e.debug_text()),
{
    match written {
        Ok(()) => Ok(()),
        Err(e) => {
            let failure = match command {
                DeviceEvent::AutomaticShutdownAfter(_) =>
                    "Failed to set automatic shutdown with error: ",
                DeviceEvent::Muted(_) => "Failed to mute with error: ",
                DeviceEvent::SideToneOn(_) => "Failed to enable side tone with error: ",
                DeviceEvent::SideToneVolume(_) => "Failed to set side tone volume with error: ",
                DeviceEvent::VoicePrompt(_) => "Failed to enable voice prompt with error: ",
                DeviceEvent::SurroundSound(_) => "Failed to set surround sound with error: ",
                DeviceEvent::Silent(_) => "Failed to mute playback with error: ",
                DeviceEvent::NoiseGateActive(_) => "Failed to activate noise gate with error: ",
                _ => "",
            };
            let mut s = String::from_str(failure);
            s.append(e.debug_string().as_str());
            Err(s)
        },
    }
}

} // verus!
