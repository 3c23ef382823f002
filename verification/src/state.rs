//! The state of a headset and how it changes.
use vstd::prelude::*;
use crate::events::DeviceEvent;
use crate::properties::{blank_properties, DeviceProperties};
use crate::transport::HidTransport;

verus! {

/// A headset: the transport to it and what is known of it.
pub struct DeviceState<D, U> {
    pub transport: HidTransport<D, U>,
    pub device_properties: DeviceProperties,
}

/// The settings that a headset accepts.
#[derive(Debug, Clone, Copy, PartialEq, Eq, Structural)]
pub struct Capabilities {
    pub mute: bool,
    pub surround_sound: bool,
    pub side_tone: bool,
    pub automatic_shutdown: bool,
    pub side_tone_volume: bool,
    pub voice_prompt: bool,
    pub silent_mode: bool,
    pub equalizer: bool,
    pub noise_gate: bool,
}

/// The properties once `event` has been reported: the property that the event is
/// about has the value that it carries, and every other is as before.
pub open spec fn apply_event(p: DeviceProperties, event: DeviceEvent) -> DeviceProperties {
    DeviceProperties {
        battery_level: match event {
            DeviceEvent::BatterLevel(reported) => Some(reported),
            _ => p.battery_level,
        },
        charging: match event {
            DeviceEvent::Charging(reported) => Some(reported),
            _ => p.charging,
        },
        muted: match event {
            DeviceEvent::Muted(reported) => Some(reported),
            _ => p.muted,
        },
        mic_connected: match event {
            DeviceEvent::MicConnected(reported) => Some(reported),
            _ => p.mic_connected,
        },
        automatic_shutdown_after: match event {
            DeviceEvent::AutomaticShutdownAfter(reported) => Some(reported),
            _ => p.automatic_shutdown_after,
        },
        pairing_info: match event {
            DeviceEvent::PairingInfo(reported) => Some(reported),
            _ => p.pairing_info,
        },
        product_color: match event {
            DeviceEvent::ProductColor(reported) => Some(reported),
            _ => p.product_color,
        },
        side_tone_on: match event {
            DeviceEvent::SideToneOn(reported) => Some(reported),
            _ => p.side_tone_on,
        },
        side_tone_volume: match event {
            DeviceEvent::SideToneVolume(reported) => Some(reported),
            _ => p.side_tone_volume,
        },
        surround_sound: match event {
            DeviceEvent::SurroundSound(reported) => Some(reported),
            _ => p.surround_sound,
        },
        voice_prompt_on: match event {
            DeviceEvent::VoicePrompt(reported) => Some(reported),
            _ => p.voice_prompt_on,
        },
        connected: match event {
            DeviceEvent::WirelessConnected(reported) => Some(reported),
            _ => p.connected,
        },
        silent: match event {
            DeviceEvent::Silent(reported) => Some(reported),
            _ => p.silent,
        },
        noise_gate_active: match event {
            DeviceEvent::NoiseGateActive(reported) => Some(reported),
            _ => p.noise_gate_active,
        },
        ..p
    }
}

/// The properties once the events have been reported one after another.
pub open spec fn apply_events(p: DeviceProperties, events: Seq<DeviceEvent>) -> DeviceProperties
    decreases events.len(),
{
    if events.len() == 0 {
        p
    } else {
        apply_event(apply_events(p, events.drop_last()), events.last())
    }
}

/// The properties with these capabilities; all else is as before.
pub open spec fn with_capabilities(p: DeviceProperties, c: Capabilities) -> DeviceProperties {
    DeviceProperties {
        can_set_mute: c.mute,
        can_set_surround_sound: c.surround_sound,
        can_set_side_tone: c.side_tone,
        can_set_automatic_shutdown: c.automatic_shutdown,
        can_set_side_tone_volume: c.side_tone_volume,
        can_set_voice_prompt: c.voice_prompt,
        can_set_silent_mode: c.silent_mode,
        can_set_equalizer: c.equalizer,
        can_set_noise_gate: c.noise_gate,
        ..p
    }
}

/// The capabilities that the properties hold.
pub open spec fn capabilities_of(p: DeviceProperties) -> Capabilities {
    Capabilities {
        mute: p.can_set_mute,
        surround_sound: p.can_set_surround_sound,
        side_tone: p.can_set_side_tone,
        automatic_shutdown: p.can_set_automatic_shutdown,
        side_tone_volume: p.can_set_side_tone_volume,
        voice_prompt: p.can_set_voice_prompt,
        silent_mode: p.can_set_silent_mode,
        equalizer: p.can_set_equalizer,
        noise_gate: p.can_set_noise_gate,
    }
}

/// The properties with every report forgotten. Which headset it is and what can be
/// set on it are kept.
pub open spec fn cleared(p: DeviceProperties) -> DeviceProperties {
    with_capabilities(
        blank_properties(p.product_id, p.vendor_id, p.device_name),
        capabilities_of(p),
    )
}

impl<D, U> DeviceState<D, U> {
    /// Takes up what the headset has reported.
    pub fn update_self_with_event(&mut self, event: &DeviceEvent)
        ensures
            final(self).transport == old(self).transport,
            final(self).device_properties == apply_event(old(self).device_properties, *event),
    {
        match event {
            DeviceEvent::BatterLevel(level) => {
                self.device_properties.battery_level = Some(*level);
            },
            DeviceEvent::Charging(status) => {
                self.device_properties.charging = Some(*status);
            },
            DeviceEvent::Muted(status) => {
                self.device_properties.muted = Some(*status);
            },
            DeviceEvent::MicConnected(status) => {
                self.device_properties.mic_connected = Some(*status);
            },
            DeviceEvent::AutomaticShutdownAfter(duration) => {
                self.device_properties.automatic_shutdown_after = Some(*duration);
            },
            DeviceEvent::PairingInfo(info) => {
                self.device_properties.pairing_info = Some(*info);
            },
            DeviceEvent::ProductColor(color) => {
                self.device_properties.product_color = Some(*color);
            },
            DeviceEvent::SideToneOn(side) => {
                self.device_properties.side_tone_on = Some(*side);
            },
            DeviceEvent::SideToneVolume(volume) => {
                self.device_properties.side_tone_volume = Some(*volume);
            },
            DeviceEvent::SurroundSound(status) => {
                self.device_properties.surround_sound = Some(*status);
            },
            DeviceEvent::VoicePrompt(on) => {
                self.device_properties.voice_prompt_on = Some(*on);
            },
            DeviceEvent::WirelessConnected(connected) => {
                self.device_properties.connected = Some(*connected);
            },
            DeviceEvent::Silent(silent) => {
                self.device_properties.silent = Some(*silent);
            },
            DeviceEvent::RequireSIRKReset(_) => {},
            DeviceEvent::NoiseGateActive(on) => {
                self.device_properties.noise_gate_active = Some(*on);
            },
        }
    }

    /// Takes up all the events, in order.
    pub fn update_self_with_events(&mut self, events: &Vec<DeviceEvent>)
        ensures
            final(self).transport == old(self).transport,
            final(self).device_properties == apply_events(old(self).device_properties, events@),
            events@.len() == 0 ==> final(self).device_properties == old(self).device_properties,
            events@.len() == 1 ==> final(self).device_properties == apply_event(
                old(self).device_properties,
                events@[0],
            ),
    {
        proof {
            if events@.len() == 1 {
                assert(events@ =~= seq![events@[0]]);
                crate::laws::state::events_are_taken_up_in_turn(
                    self.device_properties,
                    events@,
                    events@[0],
                );
            }
        }
        let ghost start = *self;
        let mut done: usize = 0;
        while done < events.len()
            invariant
                done <= events.len(),
                self.transport == start.transport,
                self.device_properties == apply_events(
                    start.device_properties,
                    events@.take(done as int),
                ),
            decreases events.len() - done,
        {
            proof {
                assert(events@.take(done + 1).drop_last() =~= events@.take(done as int));
                assert(events@.take(done + 1).last() == events@[done as int]);
            }
            self.update_self_with_event(&events[done]);
            done = done + 1;
        }
        assert(events@.take(events@.len() as int) =~= events@);
    }

    /// Takes down which settings the headset accepts.
    pub fn init_capabilities(&mut self, c: Capabilities)
        ensures
            final(self).transport == old(self).transport,
            final(self).device_properties == with_capabilities(old(self).device_properties, c),
    {
        self.device_properties.can_set_mute = c.mute;
        self.device_properties.can_set_surround_sound = c.surround_sound;
        self.device_properties.can_set_side_tone = c.side_tone;
        self.device_properties.can_set_automatic_shutdown = c.automatic_shutdown;
        self.device_properties.can_set_side_tone_volume = c.side_tone_volume;
        self.device_properties.can_set_voice_prompt = c.voice_prompt;
        self.device_properties.can_set_silent_mode = c.silent_mode;
        self.device_properties.can_set_equalizer = c.equalizer;
        self.device_properties.can_set_noise_gate = c.noise_gate;
    }

    /// The settings that the headset accepts, as they were taken down.
    pub fn capabilities(&self) -> (c: Capabilities)
        ensures
            c == capabilities_of(self.device_properties),
    {
        Capabilities {
            mute: self.device_properties.can_set_mute,
            surround_sound: self.device_properties.can_set_surround_sound,
            side_tone: self.device_properties.can_set_side_tone,
            automatic_shutdown: self.device_properties.can_set_automatic_shutdown,
            side_tone_volume: self.device_properties.can_set_side_tone_volume,
            voice_prompt: self.device_properties.can_set_voice_prompt,
            silent_mode: self.device_properties.can_set_silent_mode,
            equalizer: self.device_properties.can_set_equalizer,
            noise_gate: self.device_properties.can_set_noise_gate,
        }
    }

    /// Forgets every report. The capabilities, which are taken down once, are kept.
    pub fn clear_state(&mut self)
        ensures
            final(self).transport == old(self).transport,
            final(self).device_properties == cleared(old(self).device_properties),
    {
        let product_id: u16 = self.device_properties.product_id;
        let vendor_id: u16 = self.device_properties.vendor_id;
        let device_name = self.device_properties.device_name.clone();
        let capabilities = self.capabilities();
        self.device_properties = DeviceProperties::new(product_id, vendor_id, device_name);
        self.init_capabilities(capabilities);
    }
}

} // verus!
