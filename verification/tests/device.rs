use hyper_headset::command::{command_result, plan_command, CommandPlan};
use hyper_headset::device::{present_packets, read_timeout_millis, Device};
use hyper_headset::duration::Duration;
use hyper_headset::errors::HidError;
use hyper_headset::events::DeviceEvent;
use hyper_headset::state::Capabilities;

struct Headset;

fn headset() -> Headset {
    Headset
}

impl Device for Headset {
    fn get_charging_packet(&self) -> Option<Vec<u8>> {
        Some(vec![2])
    }
    fn get_battery_packet(&self) -> Option<Vec<u8>> {
        Some(vec![3])
    }
    fn set_automatic_shut_down_packet(&self, shutdown_after: Duration) -> Option<Vec<u8>> {
        Some(vec![40, (shutdown_after.as_secs() / 60) as u8])
    }
    fn get_automatic_shut_down_packet(&self) -> Option<Vec<u8>> {
        None
    }
    fn get_mute_packet(&self) -> Option<Vec<u8>> {
        Some(vec![5])
    }
    fn set_mute_packet(&self, mute: bool) -> Option<Vec<u8>> {
        Some(vec![50, mute as u8])
    }
    fn get_surround_sound_packet(&self) -> Option<Vec<u8>> {
        None
    }
    fn set_surround_sound_packet(&self, _surround_sound: bool) -> Option<Vec<u8>> {
        None
    }
    fn get_mic_connected_packet(&self) -> Option<Vec<u8>> {
        None
    }
    fn get_pairing_info_packet(&self) -> Option<Vec<u8>> {
        None
    }
    fn get_product_color_packet(&self) -> Option<Vec<u8>> {
        None
    }
    fn get_side_tone_packet(&self) -> Option<Vec<u8>> {
        Some(vec![10])
    }
    fn set_side_tone_packet(&self, _side_tone_on: bool) -> Option<Vec<u8>> {
        None
    }
    fn get_side_tone_volume_packet(&self) -> Option<Vec<u8>> {
        None
    }
    fn set_side_tone_volume_packet(&self, volume: u8) -> Option<Vec<u8>> {
        Some(vec![110, volume])
    }
    fn get_voice_prompt_packet(&self) -> Option<Vec<u8>> {
        None
    }
    fn set_voice_prompt_packet(&self, _enable: bool) -> Option<Vec<u8>> {
        None
    }
    fn get_wireless_connected_status_packet(&self) -> Option<Vec<u8>> {
        Some(vec![1])
    }
    fn get_sirk_packet(&self) -> Option<Vec<u8>> {
        Some(vec![13])
    }
    fn reset_sirk_packet(&self) -> Option<Vec<u8>> {
        None
    }
    fn get_silent_mode_packet(&self) -> Option<Vec<u8>> {
        None
    }
    fn set_silent_mode_packet(&self, _silence: bool) -> Option<Vec<u8>> {
        None
    }
    fn get_event_from_device_response(&self, response: &[u8]) -> Option<Vec<DeviceEvent>> {
        if response[0] == 9 {
            Some(vec![DeviceEvent::BatterLevel(response[1])])
        } else {
            None
        }
    }
    fn allow_passive_refresh(&mut self) -> bool {
        true
    }
}

#[test]
fn query_packets_are_in_order() {
    assert_eq!(headset().get_query_packets(), [[1], [2], [3], [5], [10], [13]]);
}

#[test]
fn missing_packets_are_left_out() {
    assert_eq!(
        present_packets(vec![None, Some(vec![1]), None, Some(vec![2])]),
        [[1], [2]]
    );
    assert_eq!(present_packets(vec![None, None]), Vec::<Vec<u8>>::new());
}

#[test]
fn capabilities_follow_the_packets() {
    assert_eq!(
        headset().capabilities(&None),
        Capabilities {
            mute: true,
            surround_sound: false,
            side_tone: false,
            automatic_shutdown: true,
            side_tone_volume: true,
            voice_prompt: false,
            silent_mode: false,
            equalizer: false,
            noise_gate: false,
        }
    );
}

#[test]
fn noise_gate_is_unsupported_unless_overridden() {
    assert_eq!(headset().get_noise_gate_packet(), None);
    assert_eq!(headset().set_noise_gate_packet(true), None);
    assert!(!headset().can_set_noise_gate());
}

#[test]
fn equalizer_follows_its_band_packet() {
    assert!(!headset().can_set_equalizer(&None));
    assert!(headset().can_set_equalizer(&Some(vec![1])));
    assert!(headset().capabilities(&Some(vec![1])).equalizer);
}

#[test]
fn response_buffer_is_zeroed() {
    assert_eq!(headset().get_response_buffer(), vec![0u8; 256]);
}

#[test]
fn reads_become_events() {
    let h = headset();
    let buf = [9u8, 44, 0];
    assert!(matches!(
        h.wait_for_updates(Ok(1), &buf).as_deref(),
        Some([DeviceEvent::BatterLevel(44)])
    ));
    assert!(h.wait_for_updates(Ok(0), &buf).is_none());
    assert!(h.wait_for_updates(Err(HidError::InvalidZeroSizeData), &buf).is_none());
    assert!(h.wait_for_updates(Ok(3), &[1, 2, 3]).is_none());
}

#[test]
fn settings_are_sent_or_refused() {
    let h = headset();
    let sent = |command| match h.try_apply(command) {
        CommandPlan::Send(packet) => packet,
        _ => panic!("the setting is sent"),
    };
    assert_eq!(sent(DeviceEvent::Muted(true)), [50, 1]);
    assert_eq!(sent(DeviceEvent::SideToneVolume(77)), [110, 77]);
    assert_eq!(sent(DeviceEvent::AutomaticShutdownAfter(Duration::from_secs(600))), [40, 10]);
    let refused = |command| match h.try_apply(command) {
        CommandPlan::Unsupported(message) => message,
        _ => panic!("the setting is refused"),
    };
    assert_eq!(
        refused(DeviceEvent::SideToneOn(true)),
        "ERROR: Side tone control is not supported on this device"
    );
    assert!(matches!(h.try_apply(DeviceEvent::BatterLevel(1)), CommandPlan::Nothing));
}

#[test]
fn refusals_are_worded() {
    let cases = [
        (
            DeviceEvent::AutomaticShutdownAfter(Duration::from_secs(0)),
            "ERROR: Automatic shutdown is not supported on this device",
        ),
        (
            DeviceEvent::Muted(true),
            "ERROR: Microphone mute control is not supported on this device (hardware button only)",
        ),
        (
            DeviceEvent::SideToneOn(true),
            "ERROR: Side tone control is not supported on this device",
        ),
        (
            DeviceEvent::SideToneVolume(1),
            "ERROR: Side tone volume control is not supported on this device",
        ),
        (
            DeviceEvent::VoicePrompt(true),
            "ERROR: Voice prompt control is not supported on this device",
        ),
        (
            DeviceEvent::SurroundSound(true),
            "ERROR: Surround sound control is not supported on this device",
        ),
        (
            DeviceEvent::Silent(true),
            "ERROR: Playback mute control is not supported on this device",
        ),
        (
            DeviceEvent::NoiseGateActive(true),
            "ERROR: Activating noise gate is not supported on this device",
        ),
    ];
    for (command, message) in cases {
        match plan_command(command, None) {
            CommandPlan::Unsupported(s) => assert_eq!(s, message),
            _ => panic!("the setting is refused"),
        }
    }
}

#[test]
fn failures_are_worded() {
    let cases = [
        (
            DeviceEvent::AutomaticShutdownAfter(Duration::from_secs(0)),
            "Failed to set automatic shutdown with error: ",
        ),
        (DeviceEvent::Muted(true), "Failed to mute with error: "),
        (DeviceEvent::SideToneOn(true), "Failed to enable side tone with error: "),
        (DeviceEvent::SideToneVolume(1), "Failed to set side tone volume with error: "),
        (DeviceEvent::VoicePrompt(true), "Failed to enable voice prompt with error: "),
        (DeviceEvent::SurroundSound(true), "Failed to set surround sound with error: "),
        (DeviceEvent::Silent(true), "Failed to mute playback with error: "),
        (DeviceEvent::NoiseGateActive(true), "Failed to activate noise gate with error: "),
    ];
    for (command, message) in cases {
        assert_eq!(command_result(command, Ok(())), Ok(()));
        let error = HidError::HidApiError { message: "e".to_string() };
        assert_eq!(
            command_result(command, Err(error)),
            Err(format!("{message}HidApiError {{ message: \"e\" }}"))
        );
    }
}

#[test]
fn reports_are_no_settings() {
    for event in [
        DeviceEvent::BatterLevel(1),
        DeviceEvent::MicConnected(true),
        DeviceEvent::PairingInfo(1),
        DeviceEvent::WirelessConnected(true),
        DeviceEvent::RequireSIRKReset(true),
    ] {
        assert!(matches!(plan_command(event, Some(vec![1])), CommandPlan::Nothing));
    }
}

#[test]
fn read_limits_in_milliseconds() {
    for millis in [0u64, 1, 1000, 2000, 0x7fff_ffff, 0x8000_0000, 0xffff_ffff, 0x1_0000_0005] {
        let std = std::time::Duration::from_millis(millis);
        assert_eq!(read_timeout_millis(Duration::from_millis(millis)), std.as_millis() as i32);
    }
    assert_eq!(read_timeout_millis(Duration::from_millis(0x8000_0000)), i32::MIN);
}
