use hyper_headset::debug::DebugText;
use hyper_headset::duration::Duration;
use hyper_headset::events::{ChargingStatus, Color, DeviceEvent};
use hyper_headset::properties::{DeviceProperties, PropertyType};
use hyper_headset::state::DeviceState;
use hyper_headset::transport::{HidTransport, LibusbTransport};

const SPANS: [(u64, u32); 8] = [
    (0, 0),
    (900, 0),
    (1, 500_000_000),
    (0, 50_000_000),
    (0, 1_500),
    (0, 7),
    (3, 1),
    (u64::MAX, 999_999_999),
];

#[test]
fn spans_are_shown_as_by_std() {
    for (secs, nanos) in SPANS {
        let std = std::time::Duration::new(secs, nanos);
        assert_eq!(Duration { secs, nanos }.debug_string(), format!("{:?}", std));
    }
    assert_eq!(Duration { secs: 900, nanos: 0 }.debug_string(), "900s");
    assert_eq!(Duration { secs: 0, nanos: 50_000_000 }.debug_string(), "50ms");
}

#[test]
fn events_for_debugging() {
    let cases = [
        (DeviceEvent::BatterLevel(80), "BatterLevel(80)"),
        (DeviceEvent::Muted(true), "Muted(true)"),
        (DeviceEvent::MicConnected(false), "MicConnected(false)"),
        (DeviceEvent::Charging(ChargingStatus::FullyCharged), "Charging(FullyCharged)"),
        (
            DeviceEvent::AutomaticShutdownAfter(Duration { secs: 1, nanos: 500_000_000 }),
            "AutomaticShutdownAfter(1.5s)",
        ),
        (DeviceEvent::PairingInfo(3), "PairingInfo(3)"),
        (DeviceEvent::ProductColor(Color::UnknownColor(9)), "ProductColor(UnknownColor(9))"),
        (DeviceEvent::SideToneOn(true), "SideToneOn(true)"),
        (DeviceEvent::SideToneVolume(125), "SideToneVolume(125)"),
        (DeviceEvent::VoicePrompt(true), "VoicePrompt(true)"),
        (DeviceEvent::WirelessConnected(true), "WirelessConnected(true)"),
        (DeviceEvent::SurroundSound(false), "SurroundSound(false)"),
        (DeviceEvent::Silent(true), "Silent(true)"),
        (DeviceEvent::RequireSIRKReset(true), "RequireSIRKReset(true)"),
        (DeviceEvent::NoiseGateActive(false), "NoiseGateActive(false)"),
    ];
    for (event, shown) in cases {
        assert_eq!(event.debug_string(), shown);
    }
}

#[test]
fn plain_variants_for_debugging() {
    for color in [Color::BlackBlack, Color::WhiteWhite, Color::BlackRed, Color::UnknownColor(200)] {
        assert_eq!(color.debug_string(), format!("{:?}", color));
    }
    for code in 0..4u8 {
        let status = ChargingStatus::from(code);
        assert_eq!(status.debug_string(), format!("{:?}", status));
    }
    for kind in [PropertyType::ReadOnly, PropertyType::AlwaysReadOnly, PropertyType::ReadWrite] {
        assert_eq!(kind.debug_string(), format!("{:?}", kind));
    }
}

fn properties() -> DeviceProperties {
    DeviceProperties {
        battery_level: Some(80),
        charging: Some(ChargingStatus::Charging),
        automatic_shutdown_after: Some(Duration { secs: 1200, nanos: 0 }),
        product_color: Some(Color::BlackRed),
        connected: Some(true),
        can_set_mute: true,
        ..DeviceProperties::new(0x1234, 0x03f0, Some("Hyper\"X".to_string()))
    }
}

const SHOWN: &str = "DeviceProperties { product_id: 4660, vendor_id: 1008, device_name: \
    Some(\"Hyper\\\"X\"), battery_level: Some(80), charging: Some(Charging), muted: None, \
    mic_connected: None, automatic_shutdown_after: Some(1200s), pairing_info: None, \
    product_color: Some(BlackRed), side_tone_on: None, side_tone_volume: None, surround_sound: \
    None, voice_prompt_on: None, connected: Some(true), silent: None, noise_gate_active: None, \
    can_set_mute: true, can_set_surround_sound: false, can_set_side_tone: false, \
    can_set_automatic_shutdown: false, can_set_side_tone_volume: false, can_set_voice_prompt: \
    false, can_set_silent_mode: false, can_set_equalizer: false, can_set_noise_gate: false }";

#[test]
fn properties_for_debugging() {
    assert_eq!(properties().debug_string(), SHOWN);
}

#[test]
fn states_for_debugging() {
    let libusb: DeviceState<(), ()> = DeviceState {
        transport: HidTransport::Libusb(LibusbTransport::open((), 3, 0x84, None)),
        device_properties: properties(),
    };
    assert_eq!(
        libusb.debug_string(),
        format!(
            "DeviceState {{ transport: HidTransport::Libusb {{ interface: 3, ep_in: 0x84 }}, \
             device_properties: {SHOWN} }}"
        )
    );
}

#[test]
fn listed_properties_for_debugging() {
    let all = properties().get_properties();
    assert_eq!(
        all[0].debug_string(),
        "String(PropertyDescriptor { prefix: \"Charging status:\", data: Some(\"Charging\"), \
         suffix: \"\", property_type: AlwaysReadOnly })"
    );
    assert_eq!(
        all[1].debug_string(),
        "Int(PropertyDescriptor { prefix: \"Battery level:\", data: Some(80), suffix: \"%\", \
         property_type: AlwaysReadOnly }, [])"
    );
    assert_eq!(
        all[2].debug_string(),
        "Bool(PropertyDescriptor { prefix: \"Muted:\", data: None, suffix: \"\", property_type: \
         ReadWrite })"
    );
    assert_eq!(
        all[4].debug_string(),
        "Int(PropertyDescriptor { prefix: \"Automatic shutdown after:\", data: Some(20), suffix: \
         \"min\", property_type: ReadOnly }, [0, 5, 10, 15, 20, 30, 40, 60])"
    );
}
