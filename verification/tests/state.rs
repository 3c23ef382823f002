use hyper_headset::duration::Duration;
use hyper_headset::events::{ChargingStatus, Color, DeviceEvent};
use hyper_headset::properties::{DeviceProperties, PropertyDescriptorWrapper};
use hyper_headset::state::{Capabilities, DeviceState};
use hyper_headset::transport::HidTransport;

fn state() -> DeviceState<u8, ()> {
    DeviceState {
        transport: HidTransport::Hidapi(5),
        device_properties: DeviceProperties::new(1, 2, Some("n".to_string())),
    }
}

fn blank() -> DeviceProperties {
    DeviceProperties::new(1, 2, Some("n".to_string()))
}

#[test]
fn each_event_sets_its_property() {
    let d = Duration::from_secs(300);
    let cases: Vec<(DeviceEvent, DeviceProperties)> = vec![
        (DeviceEvent::BatterLevel(9), DeviceProperties { battery_level: Some(9), ..blank() }),
        (DeviceEvent::Muted(true), DeviceProperties { muted: Some(true), ..blank() }),
        (DeviceEvent::MicConnected(true), DeviceProperties { mic_connected: Some(true), ..blank() }),
        (
            DeviceEvent::Charging(ChargingStatus::FullyCharged),
            DeviceProperties { charging: Some(ChargingStatus::FullyCharged), ..blank() },
        ),
        (
            DeviceEvent::AutomaticShutdownAfter(d),
            DeviceProperties { automatic_shutdown_after: Some(d), ..blank() },
        ),
        (DeviceEvent::PairingInfo(4), DeviceProperties { pairing_info: Some(4), ..blank() }),
        (
            DeviceEvent::ProductColor(Color::BlackRed),
            DeviceProperties { product_color: Some(Color::BlackRed), ..blank() },
        ),
        (DeviceEvent::SideToneOn(false), DeviceProperties { side_tone_on: Some(false), ..blank() }),
        (DeviceEvent::SideToneVolume(7), DeviceProperties { side_tone_volume: Some(7), ..blank() }),
        (DeviceEvent::VoicePrompt(true), DeviceProperties { voice_prompt_on: Some(true), ..blank() }),
        (
            DeviceEvent::WirelessConnected(true),
            DeviceProperties { connected: Some(true), ..blank() },
        ),
        (
            DeviceEvent::SurroundSound(true),
            DeviceProperties { surround_sound: Some(true), ..blank() },
        ),
        (DeviceEvent::Silent(true), DeviceProperties { silent: Some(true), ..blank() }),
        (DeviceEvent::RequireSIRKReset(true), blank()),
        (
            DeviceEvent::NoiseGateActive(false),
            DeviceProperties { noise_gate_active: Some(false), ..blank() },
        ),
    ];
    for (event, expected) in cases {
        let mut s = state();
        s.update_self_with_event(&event);
        assert!(s.device_properties == expected);
        assert!(matches!(s.transport, HidTransport::Hidapi(5)));
    }
}

#[test]
fn later_events_win() {
    let mut s = state();
    s.update_self_with_events(&vec![
        DeviceEvent::Muted(true),
        DeviceEvent::BatterLevel(1),
        DeviceEvent::Muted(false),
    ]);
    assert_eq!(s.device_properties.muted, Some(false));
    assert_eq!(s.device_properties.battery_level, Some(1));
}

#[test]
fn order_of_different_events_does_not_matter() {
    let events = vec![DeviceEvent::Silent(true), DeviceEvent::PairingInfo(3)];
    let mut there = state();
    there.update_self_with_events(&events);
    let mut back = state();
    back.update_self_with_event(&events[1]);
    back.update_self_with_event(&events[0]);
    assert!(there.device_properties == back.device_properties);
}

#[test]
fn settings_are_read_back() {
    for i in 0..14usize {
        let mut s = state();
        let event = match &s.device_properties.get_properties()[i] {
            PropertyDescriptorWrapper::Int(d, _) => d.create_event(60),
            PropertyDescriptorWrapper::Bool(d) => d.create_event(true),
            PropertyDescriptorWrapper::String(_) => None,
        };
        if let Some(event) = event {
            s.update_self_with_event(&event);
            for (j, property) in s.device_properties.get_properties().iter().enumerate() {
                match property {
                    PropertyDescriptorWrapper::Int(d, _) => {
                        assert_eq!(d.data, if i == j { Some(60) } else { None })
                    }
                    PropertyDescriptorWrapper::Bool(d) => {
                        assert_eq!(d.data, if i == j { Some(true) } else { None })
                    }
                    PropertyDescriptorWrapper::String(d) => assert_eq!(d.data, None),
                }
            }
        }
    }
}

#[test]
fn clearing_keeps_the_identity_and_the_capabilities() {
    let mut s = state();
    s.init_capabilities(Capabilities {
        mute: true,
        surround_sound: false,
        side_tone: true,
        automatic_shutdown: false,
        side_tone_volume: true,
        voice_prompt: false,
        silent_mode: true,
        equalizer: false,
        noise_gate: true,
    });
    let accepting = DeviceProperties {
        can_set_mute: true,
        can_set_side_tone: true,
        can_set_side_tone_volume: true,
        can_set_silent_mode: true,
        can_set_noise_gate: true,
        ..blank()
    };
    assert!(s.device_properties == accepting);
    s.update_self_with_event(&DeviceEvent::BatterLevel(50));
    s.clear_state();
    assert!(s.device_properties == accepting);
    assert_eq!(s.device_properties.to_string(), "");
    s.clear_state();
    assert!(s.device_properties == accepting);
}
