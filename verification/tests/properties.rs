use hyper_headset::duration::Duration;
use hyper_headset::events::{ChargingStatus, Color, DeviceEvent};
use hyper_headset::properties::{
    DeviceProperties, PropertyDescriptor, PropertyDescriptorWrapper, PropertyEvent, PropertyType,
};

fn full() -> DeviceProperties {
    DeviceProperties {
        battery_level: Some(80),
        charging: Some(ChargingStatus::Charging),
        muted: Some(true),
        mic_connected: Some(false),
        automatic_shutdown_after: Some(Duration::from_secs(1200)),
        pairing_info: Some(3),
        product_color: Some(Color::UnknownColor(9)),
        side_tone_on: Some(true),
        side_tone_volume: Some(125),
        surround_sound: Some(false),
        voice_prompt_on: Some(true),
        connected: Some(true),
        silent: Some(false),
        noise_gate_active: Some(true),
        ..DeviceProperties::new(0x1234, 0x03f0, Some("HyperX".to_string()))
    }
}

fn all_capabilities(p: DeviceProperties) -> DeviceProperties {
    DeviceProperties {
        can_set_mute: true,
        can_set_surround_sound: true,
        can_set_side_tone: true,
        can_set_automatic_shutdown: true,
        can_set_side_tone_volume: true,
        can_set_voice_prompt: true,
        can_set_silent_mode: true,
        can_set_equalizer: true,
        can_set_noise_gate: true,
        ..p
    }
}

#[test]
fn new_headset_is_blank() {
    let p = DeviceProperties::new(7, 8, Some("name".to_string()));
    assert_eq!((p.product_id, p.vendor_id), (7, 8));
    assert_eq!(p.device_name.as_deref(), Some("name"));
    assert_eq!(p.battery_level, None);
    assert_eq!(p.connected, None);
    assert!(!p.can_set_mute && !p.can_set_equalizer && !p.can_set_noise_gate);
    assert!(p == p.clone());
}

#[test]
fn blank_headset_lists_nothing() {
    let p = DeviceProperties::new(7, 8, None);
    assert_eq!(p.to_string_with_padding(25), "");
    assert_eq!(p.to_string_with_readonly_info(0), "");
    assert_eq!(p.to_string(), "");
    assert_eq!(p.get_properties().len(), 14);
}

#[test]
fn listing_without_markers() {
    assert_eq!(
        full().to_string_with_padding(18),
        "Charging status:   Charging\n\
         Battery level:     80%\n\
         Muted:             true\n\
         Mic connected:     false\n\
         Automatic shutdown after: 20min\n\
         Pairing info:      3\n\
         Product color:     Unknown color 9\n\
         Side tone:         true\n\
         Side tone volume:  125\n\
         Surround sound:    false\n\
         Voice prompt:      true\n\
         Playback muted:    false\n\
         Noise gate active: true\n\
         Connected:         true"
    );
}

#[test]
fn listing_with_markers() {
    let p = DeviceProperties { can_set_side_tone: true, ..full() };
    assert_eq!(
        p.to_string_with_readonly_info(0),
        "Charging status: Charging\n\
         Battery level: 80%\n\
         Muted: true (read-only)\n\
         Mic connected: false\n\
         Automatic shutdown after: 20min (read-only)\n\
         Pairing info: 3\n\
         Product color: Unknown color 9\n\
         Side tone: true\n\
         Side tone volume: 125 (read-only)\n\
         Surround sound: false (read-only)\n\
         Voice prompt: true (read-only)\n\
         Playback muted: false (read-only)\n\
         Noise gate active: true (read-only)\n\
         Connected: true"
    );
}

#[test]
fn usual_listing_is_aligned() {
    let p = full();
    assert_eq!(p.to_string(), p.to_string_with_readonly_info(25));
    for line in p.to_string().lines() {
        assert_eq!(line.as_bytes()[25], b' ');
        assert_ne!(line.as_bytes()[26], b' ');
    }
}

#[test]
fn unknown_properties_are_left_out() {
    let p = DeviceProperties {
        battery_level: Some(0),
        connected: Some(false),
        ..DeviceProperties::new(1, 2, None)
    };
    assert_eq!(p.to_string_with_padding(15), "Battery level:  0%\nConnected:      false");
}

#[test]
fn listings_agree_where_all_can_be_set() {
    let p = all_capabilities(full());
    assert_eq!(p.to_string_with_padding(25), p.to_string_with_readonly_info(25));
}

#[test]
fn shutdown_follows_its_own_capability() {
    let by_mute = DeviceProperties { can_set_mute: true, ..full() };
    let by_shutdown = DeviceProperties { can_set_automatic_shutdown: true, ..full() };
    assert_eq!(by_mute.get_properties()[4].property_type(), PropertyType::ReadOnly);
    assert_eq!(by_mute.get_properties()[2].property_type(), PropertyType::ReadWrite);
    assert_eq!(by_shutdown.get_properties()[4].property_type(), PropertyType::ReadWrite);
    assert_eq!(by_shutdown.get_properties()[2].property_type(), PropertyType::ReadOnly);
}

#[test]
fn minutes_start_over() {
    let p = DeviceProperties {
        automatic_shutdown_after: Some(Duration::from_secs(257 * 60 + 59)),
        ..DeviceProperties::new(1, 2, None)
    };
    assert_eq!(p.get_properties()[4].value_string().as_deref(), Some("1"));
}

#[test]
fn choices_of_numbers() {
    for (i, property) in full().get_properties().iter().enumerate() {
        if let PropertyDescriptorWrapper::Int(_, choices) = property {
            match i {
                4 => assert_eq!(*choices, [0, 5, 10, 15, 20, 30, 40, 60]),
                8 => assert_eq!(*choices, [0, 25, 50, 75, 100, 125, 150, 175, 200, 225, 250]),
                _ => assert!(choices.is_empty()),
            }
        }
    }
}

#[test]
fn settable_properties_create_events() {
    let mut created: Vec<String> = Vec::new();
    for property in full().get_properties() {
        let event = match &property {
            PropertyDescriptorWrapper::Int(d, _) => d.create_event(15),
            PropertyDescriptorWrapper::Bool(d) => d.create_event(true),
            PropertyDescriptorWrapper::String(d) => d.create_event("x".to_string()),
        };
        assert_eq!(event.is_none(), property.property_type() == PropertyType::AlwaysReadOnly);
        if let Some(event) = event {
            created.push(event.debug_string());
        }
    }
    assert_eq!(
        created,
        [
            "Muted(true)",
            "AutomaticShutdownAfter(900s)",
            "SideToneOn(true)",
            "SideToneVolume(15)",
            "SurroundSound(true)",
            "VoicePrompt(true)",
            "Silent(true)",
            "NoiseGateActive(true)",
        ]
    );
}

#[test]
fn longest_shutdown_event() {
    let d = PropertyDescriptor::<u8> {
        prefix: "Automatic shutdown after:",
        data: None,
        suffix: "min",
        property_type: PropertyType::ReadWrite,
        event: PropertyEvent::AutomaticShutdownAfter,
    };
    assert!(matches!(
        d.create_event(255),
        Some(DeviceEvent::AutomaticShutdownAfter(Duration { secs: 15300, nanos: 0 }))
    ));
}

#[test]
fn descriptors_for_debugging() {
    let d = PropertyDescriptor::<String> {
        prefix: "Say \"hi\":",
        data: Some("a\tb".to_string()),
        suffix: "",
        property_type: PropertyType::AlwaysReadOnly,
        event: PropertyEvent::NoEvent,
    };
    assert_eq!(
        d.debug_string(),
        "PropertyDescriptor { prefix: \"Say \\\"hi\\\":\", data: Some(\"a\\tb\"), suffix: \"\", \
         property_type: AlwaysReadOnly }"
    );
    let n = PropertyDescriptor::<u8> {
        prefix: "n",
        data: Some(200),
        suffix: "%",
        property_type: PropertyType::ReadOnly,
        event: PropertyEvent::NoEvent,
    };
    assert_eq!(
        n.debug_string(),
        "PropertyDescriptor { prefix: \"n\", data: Some(200), suffix: \"%\", property_type: ReadOnly }"
    );
    let b = PropertyDescriptor::<bool> {
        prefix: "b",
        data: None,
        suffix: "",
        property_type: PropertyType::ReadWrite,
        event: PropertyEvent::Muted,
    };
    assert_eq!(
        b.debug_string(),
        "PropertyDescriptor { prefix: \"b\", data: None, suffix: \"\", property_type: ReadWrite }"
    );
}
