//! Values as they are shown for debugging.
use vstd::prelude::*;
use vstd::string::*;
use crate::duration::Duration;
use crate::events::{ChargingStatus, Color, DeviceEvent};
use crate::properties::{
    DeviceProperties, PropertyDescriptor, PropertyDescriptorWrapper, PropertyType, PropertyValue,
};
use crate::state::DeviceState;
use crate::text::{bool_string, bytes_string, decimal_string, quote};

verus! {

/// A value that can be shown for debugging.
pub trait DebugText: Sized {
    /// The value as it is shown for debugging.
    spec fn debug_text(&self) -> Seq<char>;

    fn debug_string(&self) -> (s: String)
        ensures
            s@ == self.debug_text(),
    ;
}

impl DebugText for u8 {
    open spec fn debug_text(&self) -> Seq<char> {
        crate::text::decimal(*self as nat)
    }

    fn debug_string(&self) -> (s: String) {
        decimal_string(*self as u64)
    }
}

impl DebugText for u16 {
    open spec fn debug_text(&self) -> Seq<char> {
        crate::text::decimal(*self as nat)
    }

    fn debug_string(&self) -> (s: String) {
        decimal_string(*self as u64)
    }
}

impl DebugText for bool {
    open spec fn debug_text(&self) -> Seq<char> {
        crate::text::bool_text(*self)
    }

    fn debug_string(&self) -> (s: String) {
        bool_string(*self)
    }
}

impl DebugText for String {
    open spec fn debug_text(&self) -> Seq<char> {
        crate::text::quoted(self@)
    }

    fn debug_string(&self) -> (s: String) {
        quote(self.as_str())
    }
}

impl DebugText for PropertyType {
    open spec fn debug_text(&self) -> Seq<char> {
        match self {
            PropertyType::ReadOnly => "ReadOnly"@,
            PropertyType::AlwaysReadOnly => "AlwaysReadOnly"@,
            PropertyType::ReadWrite => "ReadWrite"@,
        }
    }

    fn debug_string(&self) -> (s: String) {
        match self {
            PropertyType::ReadOnly => String::from_str("ReadOnly"),
            PropertyType::AlwaysReadOnly => String::from_str("AlwaysReadOnly"),
            PropertyType::ReadWrite => String::from_str("ReadWrite"),
        }
    }
}

impl DebugText for Color {
    open spec fn debug_text(&self) -> Seq<char> {
        match self {
            Color::BlackBlack => "BlackBlack"@,
            Color::WhiteWhite => "WhiteWhite"@,
            Color::BlackRed => "BlackRed"@,
            Color::UnknownColor(n) => in_brackets("UnknownColor"@, n.debug_text()),
        }
    }

    fn debug_string(&self) -> (s: String) {
        match self {
            Color::BlackBlack => String::from_str("BlackBlack"),
            Color::WhiteWhite => String::from_str("WhiteWhite"),
            Color::BlackRed => String::from_str("BlackRed"),
            Color::UnknownColor(n) => bracketed("UnknownColor", n.debug_string()),
        }
    }
}

impl DebugText for ChargingStatus {
    open spec fn debug_text(&self) -> Seq<char> {
        match self {
            ChargingStatus::NotCharging => "NotCharging"@,
            ChargingStatus::Charging => "Charging"@,
            ChargingStatus::FullyCharged => "FullyCharged"@,
            ChargingStatus::ChargeError => "ChargeError"@,
        }
    }

    fn debug_string(&self) -> (s: String) {
        match self {
            ChargingStatus::NotCharging => String::from_str("NotCharging"),
            ChargingStatus::Charging => String::from_str("Charging"),
            ChargingStatus::FullyCharged => String::from_str("FullyCharged"),
            ChargingStatus::ChargeError => String::from_str("ChargeError"),
        }
    }
}

/// A name with its content in round brackets behind it.
pub open spec fn in_brackets(name: Seq<char>, content: Seq<char>) -> Seq<char> {
    name + "("@ + content + ")"@
}

fn bracketed(name: &str, content: String) -> (s: String)
    ensures
        s@ == in_brackets(name@, content@),
{
    let mut s = String::from_str(name);
    s.append("(");
    s.append(content.as_str());
    s.append(")");
    s
}

/// A value that may be missing.
pub open spec fn option_text<T: DebugText>(value: Option<T>) -> Seq<char> {
    match value {
        Some(v) => in_brackets("Some"@, v.debug_text()),
        None => "None"@,
    }
}

fn option_string<T: DebugText>(value: &Option<T>) -> (s: String)
    ensures
        s@ == option_text(*value),
{
    match value {
        Some(v) => bracketed("Some", v.debug_string()),
        None => String::from_str("None"),
    }
}

/// The text in which `Debug` shows a span of so many seconds and nanoseconds.
pub uninterp spec fn span_text(secs: u64, nanos: u32) -> Seq<char>;

/// Formats the span with the `Debug` of `std::time::Duration`. The result is named
/// `span_text` and is a function of the seconds and the nanoseconds; in which unit
/// and with how many digits it is shown is not stated. Nanoseconds of a second or
/// more are left out: `std::time::Duration::new`, which makes the span, carries
/// them over and panics where that overflows.
#[verifier::external_body]
fn span_string(secs: u64, nanos: u32) -> (s: String)
    requires
        nanos < 1_000_000_000,
    ensures
        s@ == span_text(secs, nanos),
{
    format!("{:?}", std::time::Duration::new(secs, nanos))
}

impl Duration {
    pub open spec fn debug_text(&self) -> Seq<char> {
        span_text(self.secs, self.nanos)
    }

    pub fn debug_string(&self) -> (s: String)
        requires
            self.wf(),
        ensures
            s@ == self.debug_text(),
    {
        span_string(self.secs, self.nanos)
    }
}

impl DeviceEvent {
    /// The span that the event carries, if it carries one, is well-formed.
    pub open spec fn wf(&self) -> bool {
        self matches DeviceEvent::AutomaticShutdownAfter(d) ==> d.wf()
    }

    pub open spec fn debug_text(&self) -> Seq<char> {
        match self {
            DeviceEvent::BatterLevel(v) => in_brackets("BatterLevel"@, v.debug_text()),
            DeviceEvent::Muted(v) => in_brackets("Muted"@, v.debug_text()),
            DeviceEvent::MicConnected(v) => in_brackets("MicConnected"@, v.debug_text()),
            DeviceEvent::Charging(v) => in_brackets("Charging"@, v.debug_text()),
            DeviceEvent::AutomaticShutdownAfter(v) => in_brackets(
                "AutomaticShutdownAfter"@,
                v.debug_text(),
            ),
            DeviceEvent::PairingInfo(v) => in_brackets("PairingInfo"@, v.debug_text()),
            DeviceEvent::ProductColor(v) => in_brackets("ProductColor"@, v.debug_text()),
            DeviceEvent::SideToneOn(v) => in_brackets("SideToneOn"@, v.debug_text()),
            DeviceEvent::SideToneVolume(v) => in_brackets("SideToneVolume"@, v.debug_text()),
            DeviceEvent::VoicePrompt(v) => in_brackets("VoicePrompt"@, v.debug_text()),
            DeviceEvent::WirelessConnected(v) => in_brackets("WirelessConnected"@, v.debug_text()),
            DeviceEvent::SurroundSound(v) => in_brackets("SurroundSound"@, v.debug_text()),
            DeviceEvent::Silent(v) => in_brackets("Silent"@, v.debug_text()),
            DeviceEvent::RequireSIRKReset(v) => in_brackets("RequireSIRKReset"@, v.debug_text()),
            DeviceEvent::NoiseGateActive(v) => in_brackets("NoiseGateActive"@, v.debug_text()),
        }
    }

    /// The event as it is shown for debugging.
    pub fn debug_string(&self) -> (s: String)
        requires
            self.wf(),
        ensures
            s@ == self.debug_text(),
    {
        match self {
            DeviceEvent::BatterLevel(v) => bracketed("BatterLevel", v.debug_string()),
            DeviceEvent::Muted(v) => bracketed("Muted", v.debug_string()),
            DeviceEvent::MicConnected(v) => bracketed("MicConnected", v.debug_string()),
            DeviceEvent::Charging(v) => bracketed("Charging", v.debug_string()),
            DeviceEvent::AutomaticShutdownAfter(v) => bracketed(
                "AutomaticShutdownAfter",
                v.debug_string(),
            ),
            DeviceEvent::PairingInfo(v) => bracketed("PairingInfo", v.debug_string()),
            DeviceEvent::ProductColor(v) => bracketed("ProductColor", v.debug_string()),
            DeviceEvent::SideToneOn(v) => bracketed("SideToneOn", v.debug_string()),
            DeviceEvent::SideToneVolume(v) => bracketed("SideToneVolume", v.debug_string()),
            DeviceEvent::VoicePrompt(v) => bracketed("VoicePrompt", v.debug_string()),
            DeviceEvent::WirelessConnected(v) => bracketed("WirelessConnected", v.debug_string()),
            DeviceEvent::SurroundSound(v) => bracketed("SurroundSound", v.debug_string()),
            DeviceEvent::Silent(v) => bracketed("Silent", v.debug_string()),
            DeviceEvent::RequireSIRKReset(v) => bracketed("RequireSIRKReset", v.debug_string()),
            DeviceEvent::NoiseGateActive(v) => bracketed("NoiseGateActive", v.debug_string()),
        }
    }
}

fn append_field(s: &mut String, name: &str, value: String)
    ensures
        final(s)@ == old(s)@ + name@ + value@,
{
    s.append(name);
    s.append(value.as_str());
}

/// The time after which the headset turns off, if it is known.
pub open spec fn shutdown_text(after: Option<Duration>) -> Seq<char> {
    match after {
        Some(d) => in_brackets("Some"@, d.debug_text()),
        None => "None"@,
    }
}

impl DeviceProperties {
    /// The time after which the headset turns off, if it is known, is well-formed.
    pub open spec fn wf(&self) -> bool {
        self.automatic_shutdown_after matches Some(d) ==> d.wf()
    }

    /// The properties that a headset reports.
    pub open spec fn reported_text(&self) -> Seq<char> {
        ", battery_level: "@ + option_text(self.battery_level) + ", charging: "@ + option_text(
            self.charging,
        ) + ", muted: "@ + option_text(self.muted) + ", mic_connected: "@ + option_text(
            self.mic_connected,
        ) + ", automatic_shutdown_after: "@ + shutdown_text(self.automatic_shutdown_after)
            + ", pairing_info: "@ + option_text(self.pairing_info) + ", product_color: "@
            + option_text(self.product_color) + ", side_tone_on: "@ + option_text(self.side_tone_on)
            + ", side_tone_volume: "@ + option_text(self.side_tone_volume) + ", surround_sound: "@
            + option_text(self.surround_sound) + ", voice_prompt_on: "@ + option_text(
            self.voice_prompt_on,
        ) + ", connected: "@ + option_text(self.connected) + ", silent: "@ + option_text(self.silent)
            + ", noise_gate_active: "@ + option_text(self.noise_gate_active)
    }

    /// What can be set.
    pub open spec fn capabilities_text(&self) -> Seq<char> {
        ", can_set_mute: "@ + self.can_set_mute.debug_text() + ", can_set_surround_sound: "@
            + self.can_set_surround_sound.debug_text() + ", can_set_side_tone: "@
            + self.can_set_side_tone.debug_text() + ", can_set_automatic_shutdown: "@
            + self.can_set_automatic_shutdown.debug_text() + ", can_set_side_tone_volume: "@
            + self.can_set_side_tone_volume.debug_text() + ", can_set_voice_prompt: "@
            + self.can_set_voice_prompt.debug_text() + ", can_set_silent_mode: "@
            + self.can_set_silent_mode.debug_text() + ", can_set_equalizer: "@
            + self.can_set_equalizer.debug_text() + ", can_set_noise_gate: "@
            + self.can_set_noise_gate.debug_text()
    }

    pub open spec fn debug_text(&self) -> Seq<char> {
        "DeviceProperties { product_id: "@ + self.product_id.debug_text() + ", vendor_id: "@
            + self.vendor_id.debug_text() + ", device_name: "@ + option_text(self.device_name)
            + self.reported_text() + self.capabilities_text() + " }"@
    }

    fn reported_string(&self) -> (s: String)
        requires
            self.wf(),
        ensures
            s@ == self.reported_text(),
    {
        let shutdown = match self.automatic_shutdown_after {
            Some(d) => bracketed("Some", d.debug_string()),
            None => String::from_str("None"),
        };
        let mut s = String::from_str(", battery_level: ");
        s.append(option_string(&self.battery_level).as_str());
        append_field(&mut s, ", charging: ", option_string(&self.charging));
        append_field(&mut s, ", muted: ", option_string(&self.muted));
        append_field(&mut s, ", mic_connected: ", option_string(&self.mic_connected));
        append_field(&mut s, ", automatic_shutdown_after: ", shutdown);
        append_field(&mut s, ", pairing_info: ", option_string(&self.pairing_info));
        append_field(&mut s, ", product_color: ", option_string(&self.product_color));
        append_field(&mut s, ", side_tone_on: ", option_string(&self.side_tone_on));
        append_field(&mut s, ", side_tone_volume: ", option_string(&self.side_tone_volume));
        append_field(&mut s, ", surround_sound: ", option_string(&self.surround_sound));
        append_field(&mut s, ", voice_prompt_on: ", option_string(&self.voice_prompt_on));
        append_field(&mut s, ", connected: ", option_string(&self.connected));
        append_field(&mut s, ", silent: ", option_string(&self.silent));
        append_field(&mut s, ", noise_gate_active: ", option_string(&self.noise_gate_active));
        s
    }

    fn capabilities_string(&self) -> (s: String)
        ensures
            s@ == self.capabilities_text(),
    {
        let mut s = String::from_str(", can_set_mute: ");
        s.append(self.can_set_mute.debug_string().as_str());
        append_field(
            &mut s,
            ", can_set_surround_sound: ",
            self.can_set_surround_sound.debug_string(),
        );
        append_field(&mut s, ", can_set_side_tone: ", self.can_set_side_tone.debug_string());
        append_field(
            &mut s,
            ", can_set_automatic_shutdown: ",
            self.can_set_automatic_shutdown.debug_string(),
        );
        append_field(
            &mut s,
            ", can_set_side_tone_volume: ",
            self.can_set_side_tone_volume.debug_string(),
        );
        append_field(&mut s, ", can_set_voice_prompt: ", self.can_set_voice_prompt.debug_string());
        append_field(&mut s, ", can_set_silent_mode: ", self.can_set_silent_mode.debug_string());
        append_field(&mut s, ", can_set_equalizer: ", self.can_set_equalizer.debug_string());
        append_field(&mut s, ", can_set_noise_gate: ", self.can_set_noise_gate.debug_string());
        s
    }

    /// The properties as they are shown for debugging.
    pub fn debug_string(&self) -> (s: String)
        requires
            self.wf(),
        ensures
            s@ == self.debug_text(),
    {
        let mut s = String::from_str("DeviceProperties { product_id: ");
        s.append(self.product_id.debug_string().as_str());
        append_field(&mut s, ", vendor_id: ", self.vendor_id.debug_string());
        append_field(&mut s, ", device_name: ", option_string(&self.device_name));
        s.append(self.reported_string().as_str());
        s.append(self.capabilities_string().as_str());
        s.append(" }");
        s
    }
}

impl<D, U> DeviceState<D, U> {
    pub open spec fn debug_text(&self) -> Seq<char> {
        "DeviceState { transport: "@ + self.transport.debug_text() + ", device_properties: "@
            + self.device_properties.debug_text() + " }"@
    }

    /// The state as it is shown for debugging.
    pub fn debug_string(&self) -> (s: String)
        requires
            self.device_properties.wf(),
        ensures
            s@ == self.debug_text(),
    {
        let mut s = String::from_str("DeviceState { transport: ");
        s.append(self.transport.debug_string().as_str());
        s.append(", device_properties: ");
        s.append(self.device_properties.debug_string().as_str());
        s.append(" }");
        s
    }
}

impl<T: PropertyValue> PropertyDescriptor<T> {
    /// The descriptor as it is shown for debugging. How the property is set is not shown.
    pub open spec fn debug_text(&self) -> Seq<char> {
        "PropertyDescriptor { prefix: "@ + crate::text::quoted(self.prefix@) + ", data: "@
            + option_text(self.data) + ", suffix: "@ + crate::text::quoted(self.suffix@)
            + ", property_type: "@ + self.property_type.debug_text() + " }"@
    }

    pub fn debug_string(&self) -> (s: String)
        ensures
            s@ == self.debug_text(),
    {
        let mut s = String::from_str("PropertyDescriptor { prefix: ");
        s.append(quote(self.prefix).as_str());
        append_field(&mut s, ", data: ", option_string(&self.data));
        append_field(&mut s, ", suffix: ", quote(self.suffix));
        append_field(&mut s, ", property_type: ", self.property_type.debug_string());
        s.append(" }");
        s
    }
}

impl PropertyDescriptorWrapper {
    pub open spec fn debug_text(&self) -> Seq<char> {
        match self {
            PropertyDescriptorWrapper::Int(d, choices) => in_brackets(
                "Int"@,
                d.debug_text() + ", "@ + crate::text::bytes_text(choices@),
            ),
            PropertyDescriptorWrapper::Bool(d) => in_brackets("Bool"@, d.debug_text()),
            PropertyDescriptorWrapper::String(d) => in_brackets("String"@, d.debug_text()),
        }
    }

    /// The property as it is shown for debugging.
    pub fn debug_string(&self) -> (s: String)
        ensures
            s@ == self.debug_text(),
    {
        match self {
            PropertyDescriptorWrapper::Int(d, choices) => {
                let mut content = d.debug_string();
                append_field(&mut content, ", ", bytes_string(choices));
                bracketed("Int", content)
            },
            PropertyDescriptorWrapper::Bool(d) => bracketed("Bool", d.debug_string()),
            PropertyDescriptorWrapper::String(d) => bracketed("String", d.debug_string()),
        }
    }
}

} // verus!
