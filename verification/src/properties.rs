//! The properties of a headset and the table in which they are listed.
use vstd::prelude::*;
use vstd::string::*;
use crate::debug::DebugText;
use crate::duration::Duration;
use crate::events::{ChargingStatus, Color, DeviceEvent};
use crate::text::{bool_string, decimal_string};

verus! {

/// What is known of a headset. A property that was never reported is `None`.
#[derive(Clone, PartialEq, Eq)]
pub struct DeviceProperties {
    pub product_id: u16,
    pub vendor_id: u16,
    pub device_name: Option<String>,
    pub battery_level: Option<u8>,
    pub charging: Option<ChargingStatus>,
    pub muted: Option<bool>,
    pub mic_connected: Option<bool>,
    pub automatic_shutdown_after: Option<Duration>,
    pub pairing_info: Option<u8>,
    pub product_color: Option<Color>,
    pub side_tone_on: Option<bool>,
    pub side_tone_volume: Option<u8>,
    pub surround_sound: Option<bool>,
    pub voice_prompt_on: Option<bool>,
    pub connected: Option<bool>,
    pub silent: Option<bool>,
    pub noise_gate_active: Option<bool>,
    // Capability flags, set once when the device is initialized.
    pub can_set_mute: bool,
    pub can_set_surround_sound: bool,
    pub can_set_side_tone: bool,
    pub can_set_automatic_shutdown: bool,
    pub can_set_side_tone_volume: bool,
    pub can_set_voice_prompt: bool,
    pub can_set_silent_mode: bool,
    pub can_set_equalizer: bool,
    pub can_set_noise_gate: bool,
}

/// Whether a property can be set: on this headset not, never, or yes.
#[derive(Debug, Eq, PartialEq, Clone, Copy, Structural)]
pub enum PropertyType {
    ReadOnly,
    AlwaysReadOnly,
    ReadWrite,
}

/// The kind of event that asks a headset to set a property.
#[derive(Debug, Eq, PartialEq, Clone, Copy, Structural)]
pub enum PropertyEvent {
    NoEvent,
    Muted,
    AutomaticShutdownAfter,
    SideToneOn,
    SideToneVolume,
    SurroundSound,
    VoicePrompt,
    Silent,
    NoiseGateActive,
}

/// A value that a property can have.
pub trait PropertyValue: DebugText {
    /// The value as it is shown to the user.
    spec fn text(&self) -> Seq<char>;

    /// The event of the given kind that asks for the value.
    spec fn event_of(self, kind: PropertyEvent) -> Option<DeviceEvent>;

    fn to_text(&self) -> (s: String)
        ensures
            s@ == self.text(),
    ;

    fn to_event(self, kind: PropertyEvent) -> (event: Option<DeviceEvent>)
        ensures
            event == self.event_of(kind),
    ;
}

impl PropertyValue for u8 {
    open spec fn text(&self) -> Seq<char> {
        crate::text::decimal(*self as nat)
    }

    open spec fn event_of(self, kind: PropertyEvent) -> Option<DeviceEvent> {
        match kind {
            PropertyEvent::AutomaticShutdownAfter => Some(
                DeviceEvent::AutomaticShutdownAfter(
                    Duration { secs: (self * 60) as u64, nanos: 0 },
                ),
            ),
            PropertyEvent::SideToneVolume => Some(DeviceEvent::SideToneVolume(self)),
            _ => None,
        }
    }

    fn to_text(&self) -> (s: String) {
        decimal_string(*self as u64)
    }

    fn to_event(self, kind: PropertyEvent) -> (event: Option<DeviceEvent>) {
        match kind {
            PropertyEvent::AutomaticShutdownAfter => Some(
                DeviceEvent::AutomaticShutdownAfter(Duration::from_secs(self as u64 * 60)),
            ),
            PropertyEvent::SideToneVolume => Some(DeviceEvent::SideToneVolume(self)),
            _ => None,
        }
    }
}

impl PropertyValue for bool {
    open spec fn text(&self) -> Seq<char> {
        crate::text::bool_text(*self)
    }

    open spec fn event_of(self, kind: PropertyEvent) -> Option<DeviceEvent> {
        match kind {
            PropertyEvent::Muted => Some(DeviceEvent::Muted(self)),
            PropertyEvent::SideToneOn => Some(DeviceEvent::SideToneOn(self)),
            PropertyEvent::SurroundSound => Some(DeviceEvent::SurroundSound(self)),
            PropertyEvent::VoicePrompt => Some(DeviceEvent::VoicePrompt(self)),
            PropertyEvent::Silent => Some(DeviceEvent::Silent(self)),
            PropertyEvent::NoiseGateActive => Some(DeviceEvent::NoiseGateActive(self)),
            _ => None,
        }
    }

    fn to_text(&self) -> (s: String) {
        bool_string(*self)
    }

    fn to_event(self, kind: PropertyEvent) -> (event: Option<DeviceEvent>) {
        match kind {
            PropertyEvent::Muted => Some(DeviceEvent::Muted(self)),
            PropertyEvent::SideToneOn => Some(DeviceEvent::SideToneOn(self)),
            PropertyEvent::SurroundSound => Some(DeviceEvent::SurroundSound(self)),
            PropertyEvent::VoicePrompt => Some(DeviceEvent::VoicePrompt(self)),
            PropertyEvent::Silent => Some(DeviceEvent::Silent(self)),
            PropertyEvent::NoiseGateActive => Some(DeviceEvent::NoiseGateActive(self)),
            _ => None,
        }
    }
}

impl PropertyValue for String {
    open spec fn text(&self) -> Seq<char> {
        self@
    }

    open spec fn event_of(self, kind: PropertyEvent) -> Option<DeviceEvent> {
        None
    }

    fn to_text(&self) -> (s: String) {
        self.clone()
    }

    fn to_event(self, kind: PropertyEvent) -> (event: Option<DeviceEvent>) {
        None
    }
}

/// One property: how it is labelled, its value, and how it is set.
pub struct PropertyDescriptor<T: 'static> {
    pub prefix: &'static str,
    pub data: Option<T>,
    pub suffix: &'static str,
    pub property_type: PropertyType,
    pub event: PropertyEvent,
}

/// A property with the type of its value. The values among which an integer
/// property is chosen stand beside it.
pub enum PropertyDescriptorWrapper {
    Int(PropertyDescriptor<u8>, &'static [u8]),
    Bool(PropertyDescriptor<bool>),
    String(PropertyDescriptor<String>),
}

impl PropertyType {
    /// The type of a property that the headset lets be set exactly where `can_set` holds.
    pub open spec fn settable(can_set: bool) -> PropertyType {
        if can_set { PropertyType::ReadWrite } else { PropertyType::ReadOnly }
    }

    fn of_capability(can_set: bool) -> (t: PropertyType)
        ensures
            t == PropertyType::settable(can_set),
    {
        if can_set { PropertyType::ReadWrite } else { PropertyType::ReadOnly }
    }
}

impl<T: PropertyValue> PropertyDescriptor<T> {
    /// The event that asks the headset to set the property to `value`, if it can be asked.
    pub fn create_event(&self, value: T) -> (event: Option<DeviceEvent>)
        ensures
            event == value.event_of(self.event),
    {
        value.to_event(self.event)
    }
}

/// The value of a property, if it is known, and the choices of an integer property.
pub enum ValueModel {
    Int(Option<u8>, Seq<u8>),
    Bool(Option<bool>),
    Text(Option<Seq<char>>),
}

/// One row of the table of properties.
pub struct PropertyModel {
    pub prefix: Seq<char>,
    pub value: ValueModel,
    pub suffix: Seq<char>,
    pub property_type: PropertyType,
    pub event: PropertyEvent,
}

impl View for PropertyDescriptorWrapper {
    type V = PropertyModel;

    open spec fn view(&self) -> PropertyModel {
        match self {
            PropertyDescriptorWrapper::Int(d, choices) => PropertyModel {
                prefix: d.prefix@,
                value: ValueModel::Int(d.data, choices@),
                suffix: d.suffix@,
                property_type: d.property_type,
                event: d.event,
            },
            PropertyDescriptorWrapper::Bool(d) => PropertyModel {
                prefix: d.prefix@,
                value: ValueModel::Bool(d.data),
                suffix: d.suffix@,
                property_type: d.property_type,
                event: d.event,
            },
            PropertyDescriptorWrapper::String(d) => PropertyModel {
                prefix: d.prefix@,
                value: ValueModel::Text(
                    match d.data {
                        Some(text) => Some(text@),
                        None => None,
                    },
                ),
                suffix: d.suffix@,
                property_type: d.property_type,
                event: d.event,
            },
        }
    }
}

/// The rows that a list of properties stands for.
pub open spec fn rows(properties: Seq<PropertyDescriptorWrapper>) -> Seq<PropertyModel> {
    properties.map_values(|p: PropertyDescriptorWrapper| p@)
}

/// A row that is never set.
pub open spec fn fixed_row(prefix: Seq<char>, value: ValueModel, suffix: Seq<char>) -> PropertyModel {
    PropertyModel {
        prefix,
        value,
        suffix,
        property_type: PropertyType::AlwaysReadOnly,
        event: PropertyEvent::NoEvent,
    }
}

/// A row that is set through events of the given kind where `can_set` holds.
pub open spec fn settable_row(
    prefix: Seq<char>,
    value: ValueModel,
    suffix: Seq<char>,
    can_set: bool,
    event: PropertyEvent,
) -> PropertyModel {
    PropertyModel {
        prefix,
        value,
        suffix,
        property_type: PropertyType::settable(can_set),
        event,
    }
}

/// The minutes of a span as one byte; minutes beyond that start over at zero.
pub open spec fn minutes_byte(d: Duration) -> u8 {
    (d.secs / 60 % 256) as u8
}

/// The minutes that are offered for the automatic shutdown.
pub open spec fn shutdown_choices() -> Seq<u8> {
    seq![0, 5, 10, 15, 20, 30, 40, 60]
}

/// The volumes that are offered for the side tone.
pub open spec fn volume_choices() -> Seq<u8> {
    seq![0, 25, 50, 75, 100, 125, 150, 175, 200, 225, 250]
}

/// The table of properties: one row for each, whether its value is known or not.
pub open spec fn property_table(p: DeviceProperties) -> Seq<PropertyModel> {
    let charging = match p.charging {
        Some(status) => Some(status.text()),
        None => None,
    };
    let shutdown = match p.automatic_shutdown_after {
        Some(d) => Some(minutes_byte(d)),
        None => None,
    };
    let color = match p.product_color {
        Some(color) => Some(color.text()),
        None => None,
    };
    seq![
        fixed_row("Charging status:"@, ValueModel::Text(charging), ""@),
        fixed_row("Battery level:"@, ValueModel::Int(p.battery_level, seq![]), "%"@),
        settable_row(
            "Muted:"@,
            ValueModel::Bool(p.muted),
            ""@,
            p.can_set_mute,
            PropertyEvent::Muted,
        ),
        fixed_row("Mic connected:"@, ValueModel::Bool(p.mic_connected), ""@),
        settable_row(
            "Automatic shutdown after:"@,
            ValueModel::Int(shutdown, shutdown_choices()),
            "min"@,
            p.can_set_automatic_shutdown,
            PropertyEvent::AutomaticShutdownAfter,
        ),
        fixed_row("Pairing info:"@, ValueModel::Int(p.pairing_info, seq![]), ""@),
        fixed_row("Product color:"@, ValueModel::Text(color), ""@),
        settable_row(
            "Side tone:"@,
            ValueModel::Bool(p.side_tone_on),
            ""@,
            p.can_set_side_tone,
            PropertyEvent::SideToneOn,
        ),
        settable_row(
            "Side tone volume:"@,
            ValueModel::Int(p.side_tone_volume, volume_choices()),
            ""@,
            p.can_set_side_tone_volume,
            PropertyEvent::SideToneVolume,
        ),
        settable_row(
            "Surround sound:"@,
            ValueModel::Bool(p.surround_sound),
            ""@,
            p.can_set_surround_sound,
            PropertyEvent::SurroundSound,
        ),
        settable_row(
            "Voice prompt:"@,
            ValueModel::Bool(p.voice_prompt_on),
            ""@,
            p.can_set_voice_prompt,
            PropertyEvent::VoicePrompt,
        ),
        settable_row(
            "Playback muted:"@,
            ValueModel::Bool(p.silent),
            ""@,
            p.can_set_silent_mode,
            PropertyEvent::Silent,
        ),
        settable_row(
            "Noise gate active:"@,
            ValueModel::Bool(p.noise_gate_active),
            ""@,
            p.can_set_noise_gate,
            PropertyEvent::NoiseGateActive,
        ),
        fixed_row("Connected:"@, ValueModel::Bool(p.connected), ""@),
    ]
}

fn fixed<T>(prefix: &'static str, data: Option<T>, suffix: &'static str) -> (d: PropertyDescriptor<T>)
    ensures
        d == (PropertyDescriptor {
            prefix,
            data,
            suffix,
            property_type: PropertyType::AlwaysReadOnly,
            event: PropertyEvent::NoEvent,
        }),
{
    PropertyDescriptor {
        prefix,
        data,
        suffix,
        property_type: PropertyType::AlwaysReadOnly,
        event: PropertyEvent::NoEvent,
    }
}

fn settable<T>(
    prefix: &'static str,
    data: Option<T>,
    suffix: &'static str,
    can_set: bool,
    event: PropertyEvent,
) -> (d: PropertyDescriptor<T>)
    ensures
        d == (PropertyDescriptor {
            prefix,
            data,
            suffix,
            property_type: PropertyType::settable(can_set),
            event,
        }),
{
    PropertyDescriptor {
        prefix,
        data,
        suffix,
        property_type: PropertyType::of_capability(can_set),
        event,
    }
}

fn whole_minutes(d: Duration) -> (minutes: u8)
    ensures
        minutes == minutes_byte(d),
{
    let minutes: u64 = d.as_secs() / 60;
    assert(minutes as u8 == minutes % 256) by (bit_vector);
    minutes as u8
}

impl DeviceProperties {
    /// A headset of which nothing is known but what it is, and that cannot be set.
    pub fn new(product_id: u16, vendor_id: u16, device_name: Option<String>) -> (p: DeviceProperties)
        ensures
            p == blank_properties(product_id, vendor_id, device_name),
    {
        DeviceProperties {
            product_id,
            vendor_id,
            device_name,
            battery_level: None,
            charging: None,
            muted: None,
            mic_connected: None,
            automatic_shutdown_after: None,
            pairing_info: None,
            product_color: None,
            side_tone_on: None,
            side_tone_volume: None,
            surround_sound: None,
            voice_prompt_on: None,
            connected: None,
            silent: None,
            noise_gate_active: None,
            can_set_mute: false,
            can_set_surround_sound: false,
            can_set_side_tone: false,
            can_set_automatic_shutdown: false,
            can_set_side_tone_volume: false,
            can_set_voice_prompt: false,
            can_set_silent_mode: false,
            can_set_equalizer: false,
            can_set_noise_gate: false,
        }
    }

    /// All properties in the order in which they are listed.
    pub fn get_properties(&self) -> (properties: Vec<PropertyDescriptorWrapper>)
        ensures
            rows(properties@) == property_table(*self),
    {
        let charging = match self.charging {
            Some(status) => Some(status.to_string()),
            None => None,
        };
        let shutdown = match self.automatic_shutdown_after {
            Some(d) => Some(whole_minutes(d)),
            None => None,
        };
        let color = match self.product_color {
            Some(color) => Some(color.to_string()),
            None => None,
        };
        let properties = vec![
            PropertyDescriptorWrapper::String(fixed("Charging status:", charging, "")),
            PropertyDescriptorWrapper::Int(fixed("Battery level:", self.battery_level, "%"), &[]),
            PropertyDescriptorWrapper::Bool(
                settable("Muted:", self.muted, "", self.can_set_mute, PropertyEvent::Muted),
            ),
            PropertyDescriptorWrapper::Bool(fixed("Mic connected:", self.mic_connected, "")),
            PropertyDescriptorWrapper::Int(
                settable(
                    "Automatic shutdown after:",
                    shutdown,
                    "min",
                    self.can_set_automatic_shutdown,
                    PropertyEvent::AutomaticShutdownAfter,
                ),
                &[0, 5, 10, 15, 20, 30, 40, 60],
            ),
            PropertyDescriptorWrapper::Int(fixed("Pairing info:", self.pairing_info, ""), &[]),
            PropertyDescriptorWrapper::String(fixed("Product color:", color, "")),
            PropertyDescriptorWrapper::Bool(
                settable(
                    "Side tone:",
                    self.side_tone_on,
                    "",
                    self.can_set_side_tone,
                    PropertyEvent::SideToneOn,
                ),
            ),
            PropertyDescriptorWrapper::Int(
                settable(
                    "Side tone volume:",
                    self.side_tone_volume,
                    "",
                    self.can_set_side_tone_volume,
                    PropertyEvent::SideToneVolume,
                ),
                &[0, 25, 50, 75, 100, 125, 150, 175, 200, 225, 250],
            ),
            PropertyDescriptorWrapper::Bool(
                settable(
                    "Surround sound:",
                    self.surround_sound,
                    "",
                    self.can_set_surround_sound,
                    PropertyEvent::SurroundSound,
                ),
            ),
            PropertyDescriptorWrapper::Bool(
                settable(
                    "Voice prompt:",
                    self.voice_prompt_on,
                    "",
                    self.can_set_voice_prompt,
                    PropertyEvent::VoicePrompt,
                ),
            ),
            PropertyDescriptorWrapper::Bool(
                settable(
                    "Playback muted:",
                    self.silent,
                    "",
                    self.can_set_silent_mode,
                    PropertyEvent::Silent,
                ),
            ),
            PropertyDescriptorWrapper::Bool(
                settable(
                    "Noise gate active:",
                    self.noise_gate_active,
                    "",
                    self.can_set_noise_gate,
                    PropertyEvent::NoiseGateActive,
                ),
            ),
            PropertyDescriptorWrapper::Bool(fixed("Connected:", self.connected, "")),
        ];
        proof {
            let shown = rows(properties@);
            let table = property_table(*self);
            assert(shown.len() == table.len());
            assert forall|i: int| 0 <= i < shown.len() implies shown[i] == table[i] by {
                match table[i].value {
                    ValueModel::Int(_, choices) => match properties@[i] {
                        PropertyDescriptorWrapper::Int(_, offered) => {
                            assert(offered@ =~= choices);
                        },
                        _ => {},
                    },
                    _ => {},
                }
            }
            assert(shown =~= table);
        }
        properties
    }
}

/// The properties of a headset of which only the identity is known.
pub open spec fn blank_properties(
    product_id: u16,
    vendor_id: u16,
    device_name: Option<String>,
) -> DeviceProperties {
    DeviceProperties {
        product_id,
        vendor_id,
        device_name,
        battery_level: None,
        charging: None,
        muted: None,
        mic_connected: None,
        automatic_shutdown_after: None,
        pairing_info: None,
        product_color: None,
        side_tone_on: None,
        side_tone_volume: None,
        surround_sound: None,
        voice_prompt_on: None,
        connected: None,
        silent: None,
        noise_gate_active: None,
        can_set_mute: false,
        can_set_surround_sound: false,
        can_set_side_tone: false,
        can_set_automatic_shutdown: false,
        can_set_side_tone_volume: false,
        can_set_voice_prompt: false,
        can_set_silent_mode: false,
        can_set_equalizer: false,
        can_set_noise_gate: false,
    }
}

} // verus!
