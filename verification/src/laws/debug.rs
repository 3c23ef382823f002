//! What holds of the texts for debugging.
use vstd::prelude::*;
use crate::debug::{option_text, shutdown_text, span_text, DebugText};
use crate::duration::Duration;
use crate::events::{ChargingStatus, Color, DeviceEvent};
use crate::properties::{
    DeviceProperties, PropertyDescriptor, PropertyDescriptorWrapper, PropertyType,
};
use crate::state::DeviceState;
use crate::text::{bytes_text, decimal, quoted};

verus! {

/// Plain values are shown as they are: numbers in decimal, switches by their name, texts
/// quoted, variants by their name, and what is missing as such.
pub proof fn plain_values_are_shown(
    n: u8,
    id: u16,
    on: bool,
    s: String,
    kind: PropertyType,
    color: Color,
    status: ChargingStatus,
    d: Duration,
)
    ensures
        n.debug_text() == decimal(n as nat),
        id.debug_text() == decimal(id as nat),
        on ==> on.debug_text() == "true"@,
        !on ==> on.debug_text() == "false"@,
        s.debug_text() == quoted(s@),
        kind is ReadOnly ==> kind.debug_text() == "ReadOnly"@,
        kind is AlwaysReadOnly ==> kind.debug_text() == "AlwaysReadOnly"@,
        kind is ReadWrite ==> kind.debug_text() == "ReadWrite"@,
        color is BlackBlack ==> color.debug_text() == "BlackBlack"@,
        color is WhiteWhite ==> color.debug_text() == "WhiteWhite"@,
        color is BlackRed ==> color.debug_text() == "BlackRed"@,
        color matches Color::UnknownColor(c) ==> color.debug_text() == "UnknownColor"@ + "("@
            + decimal(c as nat) + ")"@,
        status is NotCharging ==> status.debug_text() == "NotCharging"@,
        status is Charging ==> status.debug_text() == "Charging"@,
        status is FullyCharged ==> status.debug_text() == "FullyCharged"@,
        status is ChargeError ==> status.debug_text() == "ChargeError"@,
        d.debug_text() == span_text(d.secs, d.nanos),
{
}

/// What may be missing is shown as such, and otherwise in brackets.
pub proof fn missing_values_are_shown<T: DebugText>(v: T, d: Duration)
    ensures
        option_text(None::<T>) == "None"@,
        option_text(Some(v)) == "Some"@ + "("@ + v.debug_text() + ")"@,
        shutdown_text(None) == "None"@,
        shutdown_text(Some(d)) == "Some"@ + "("@ + span_text(d.secs, d.nanos) + ")"@,
{
}

/// An event is shown by its name with what it carries in brackets.
pub proof fn events_are_shown(e: DeviceEvent)
    ensures
        e matches DeviceEvent::BatterLevel(v) ==> e.debug_text() == "BatterLevel"@ + "("@ + decimal(v as nat)
            + ")"@,
        e matches DeviceEvent::Muted(v) ==> e.debug_text() == "Muted"@ + "("@ + (if v { "true"@ } else { "false"@ })
            + ")"@,
        e matches DeviceEvent::MicConnected(v) ==> e.debug_text() == "MicConnected"@ + "("@ + (if v { "true"@ } else { "false"@ })
            + ")"@,
        e matches DeviceEvent::Charging(v) ==> e.debug_text() == "Charging"@ + "("@ + v.debug_text()
            + ")"@,
        e matches DeviceEvent::AutomaticShutdownAfter(v) ==> e.debug_text() == "AutomaticShutdownAfter"@ + "("@ + span_text(v.secs, v.nanos)
            + ")"@,
        e matches DeviceEvent::PairingInfo(v) ==> e.debug_text() == "PairingInfo"@ + "("@ + decimal(v as nat)
            + ")"@,
        e matches DeviceEvent::ProductColor(v) ==> e.debug_text() == "ProductColor"@ + "("@ + v.debug_text()
            + ")"@,
        e matches DeviceEvent::SideToneOn(v) ==> e.debug_text() == "SideToneOn"@ + "("@ + (if v { "true"@ } else { "false"@ })
            + ")"@,
        e matches DeviceEvent::SideToneVolume(v) ==> e.debug_text() == "SideToneVolume"@ + "("@ + decimal(v as nat)
            + ")"@,
        e matches DeviceEvent::VoicePrompt(v) ==> e.debug_text() == "VoicePrompt"@ + "("@ + (if v { "true"@ } else { "false"@ })
            + ")"@,
        e matches DeviceEvent::WirelessConnected(v) ==> e.debug_text() == "WirelessConnected"@ + "("@ + (if v { "true"@ } else { "false"@ })
            + ")"@,
        e matches DeviceEvent::SurroundSound(v) ==> e.debug_text() == "SurroundSound"@ + "("@ + (if v { "true"@ } else { "false"@ })
            + ")"@,
        e matches DeviceEvent::Silent(v) ==> e.debug_text() == "Silent"@ + "("@ + (if v { "true"@ } else { "false"@ })
            + ")"@,
        e matches DeviceEvent::RequireSIRKReset(v) ==> e.debug_text() == "RequireSIRKReset"@ + "("@ + (if v { "true"@ } else { "false"@ })
            + ")"@,
        e matches DeviceEvent::NoiseGateActive(v) ==> e.debug_text() == "NoiseGateActive"@ + "("@ + (if v { "true"@ } else { "false"@ })
            + ")"@,
{
}

/// Properties are shown with every field under its name, in order.
pub proof fn properties_are_shown(p: DeviceProperties)
    ensures
        p.reported_text() == ({
            ", battery_level: "@ + option_text(p.battery_level)
            + ", charging: "@ + option_text(p.charging)
            + ", muted: "@ + option_text(p.muted)
            + ", mic_connected: "@ + option_text(p.mic_connected)
            + ", automatic_shutdown_after: "@ + shutdown_text(p.automatic_shutdown_after)
            + ", pairing_info: "@ + option_text(p.pairing_info)
            + ", product_color: "@ + option_text(p.product_color)
            + ", side_tone_on: "@ + option_text(p.side_tone_on)
            + ", side_tone_volume: "@ + option_text(p.side_tone_volume)
            + ", surround_sound: "@ + option_text(p.surround_sound)
            + ", voice_prompt_on: "@ + option_text(p.voice_prompt_on)
            + ", connected: "@ + option_text(p.connected)
            + ", silent: "@ + option_text(p.silent)
            + ", noise_gate_active: "@ + option_text(p.noise_gate_active)
        }),
        p.capabilities_text() == ({
            ", can_set_mute: "@ + p.can_set_mute.debug_text()
            + ", can_set_surround_sound: "@ + p.can_set_surround_sound.debug_text()
            + ", can_set_side_tone: "@ + p.can_set_side_tone.debug_text()
            + ", can_set_automatic_shutdown: "@ + p.can_set_automatic_shutdown.debug_text()
            + ", can_set_side_tone_volume: "@ + p.can_set_side_tone_volume.debug_text()
            + ", can_set_voice_prompt: "@ + p.can_set_voice_prompt.debug_text()
            + ", can_set_silent_mode: "@ + p.can_set_silent_mode.debug_text()
            + ", can_set_equalizer: "@ + p.can_set_equalizer.debug_text()
            + ", can_set_noise_gate: "@ + p.can_set_noise_gate.debug_text()
        }),
        p.debug_text() == "DeviceProperties { product_id: "@ + decimal(p.product_id as nat)
            + ", vendor_id: "@ + decimal(p.vendor_id as nat) + ", device_name: "@ + option_text(
            p.device_name,
        ) + p.reported_text() + p.capabilities_text() + " }"@,
{
}

/// A state is shown as its transport and its properties.
pub proof fn states_are_shown<D, U>(s: DeviceState<D, U>)
    ensures
        s.debug_text() == "DeviceState { transport: "@ + s.transport.debug_text()
            + ", device_properties: "@ + s.device_properties.debug_text() + " }"@,
{
}

/// A property of the table is shown by the type of its value, with its label, its value,
/// its unit and whether it can be set; of a number also the choices.
pub proof fn descriptors_are_shown(
    n: PropertyDescriptor<u8>,
    choices: &'static [u8],
    b: PropertyDescriptor<bool>,
    s: PropertyDescriptor<String>,
)
    ensures
        n.debug_text() == "PropertyDescriptor { prefix: "@ + quoted(n.prefix@) + ", data: "@
            + option_text(n.data) + ", suffix: "@ + quoted(n.suffix@) + ", property_type: "@
            + n.property_type.debug_text() + " }"@,
        b.debug_text() == "PropertyDescriptor { prefix: "@ + quoted(b.prefix@) + ", data: "@
            + option_text(b.data) + ", suffix: "@ + quoted(b.suffix@) + ", property_type: "@
            + b.property_type.debug_text() + " }"@,
        s.debug_text() == "PropertyDescriptor { prefix: "@ + quoted(s.prefix@) + ", data: "@
            + option_text(s.data) + ", suffix: "@ + quoted(s.suffix@) + ", property_type: "@
            + s.property_type.debug_text() + " }"@,
        PropertyDescriptorWrapper::Int(n, choices).debug_text() == "Int"@ + "("@ + (n.debug_text()
            + ", "@ + bytes_text(choices@)) + ")"@,
        PropertyDescriptorWrapper::Bool(b).debug_text() == "Bool"@ + "("@ + b.debug_text() + ")"@,
        PropertyDescriptorWrapper::String(s).debug_text() == "String"@ + "("@ + s.debug_text()
            + ")"@,
{
}

} // verus!
