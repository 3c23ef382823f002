//! The protocol of a headset: the packets that it understands.
use vstd::prelude::*;
use crate::command::{is_plan, plan_command, CommandPlan};
use crate::duration::Duration;
use crate::errors::HidError;
use crate::events::DeviceEvent;
use crate::state::Capabilities;

verus! {

/// The most bytes that one response has.
pub const RESPONSE_BUFFER_SIZE: usize = 256;

/// The packets that are there, in order.
pub open spec fn present(packets: Seq<Option<Vec<u8>>>) -> Seq<Vec<u8>>
    decreases packets.len(),
{
    if packets.len() == 0 {
        Seq::empty()
    } else {
        match packets.last() {
            Some(packet) => present(packets.drop_last()).push(packet),
            None => present(packets.drop_last()),
        }
    }
}

/// Of two lists of packets, those of the first stay before those of the second.
pub proof fn present_packets_stay_in_order(first: Seq<Option<Vec<u8>>>, second: Seq<Option<Vec<u8>>>)
    ensures
        present(first + second) == present(first) + present(second),
    decreases second.len(),
{
    if second.len() > 0 {
        present_packets_stay_in_order(first, second.drop_last());
        assert((first + second).drop_last() =~= first + second.drop_last());
        assert(present(first + second) =~= present(first) + present(second));
    } else {
        assert(first + second =~= first);
        assert(present(first) + present(second) =~= present(first));
    }
}

/// Where the packets up to some place are all there, the packet at that place
/// stands there among the packets that are there.
pub proof fn leading_packets_keep_their_place(packets: Seq<Option<Vec<u8>>>, place: int)
    requires
        0 <= place < packets.len(),
        forall|i: int| 0 <= i <= place ==> (#[trigger] packets[i]) is Some,
    ensures
        present(packets).len() > place,
        present(packets)[place] == packets[place]->0,
{
    let leading = packets.take(place + 1);
    all_present(leading);
    present_packets_stay_in_order(leading, packets.skip(place + 1));
    assert(packets =~= leading + packets.skip(place + 1));
    assert(leading[place] is Some);
}

proof fn all_present(packets: Seq<Option<Vec<u8>>>)
    requires
        forall|i: int| 0 <= i < packets.len() ==> (#[trigger] packets[i]) is Some,
    ensures
        present(packets) =~= packets.map_values(|p: Option<Vec<u8>>| p->0),
    decreases packets.len(),
{
    if packets.len() > 0 {
        let front = packets.drop_last();
        assert forall|i: int| 0 <= i < front.len() implies (#[trigger] front[i]) is Some by {
            assert(front[i] == packets[i]);
        }
        all_present(front);
        assert(packets[packets.len() - 1] is Some);
    }
}

/// The packets that are there, in order.
pub fn present_packets(packets: Vec<Option<Vec<u8>>>) -> (all: Vec<Vec<u8>>)
    ensures
        all@ == present(packets@),
{
    let ghost given = packets@;
    let mut packets = packets;
    let mut all: Vec<Vec<u8>> = Vec::new();
    let ghost mut done: int = 0;
    assert(given.skip(0) =~= given);
    while packets.len() > 0
        invariant
            0 <= done <= given.len(),
            packets@ == given.skip(done),
            all@ == present(given.take(done)),
        decreases packets.len(),
    {
        let packet = packets.remove(0);
        proof {
            assert(packet == given[done]);
            assert(given.take(done + 1).drop_last() =~= given.take(done));
            assert(given.take(done + 1).last() == given[done]);
            done = done + 1;
            assert(packets@ =~= given.skip(done));
        }
        match packet {
            Some(p) => {
                all.push(p);
            },
            None => {},
        }
    }
    assert(given.take(done) =~= given);
    all
}

/// A headset. What its packets look like is its own affair: each method that
/// returns a packet returns `None` where the headset has no such packet.
pub trait Device {
    fn get_charging_packet(&self) -> Option<Vec<u8>>;

    fn get_battery_packet(&self) -> Option<Vec<u8>>;

    fn set_automatic_shut_down_packet(&self, shutdown_after: Duration) -> Option<Vec<u8>>;

    fn get_automatic_shut_down_packet(&self) -> Option<Vec<u8>>;

    fn get_mute_packet(&self) -> Option<Vec<u8>>;

    fn set_mute_packet(&self, mute: bool) -> Option<Vec<u8>>;

    fn get_surround_sound_packet(&self) -> Option<Vec<u8>>;

    fn set_surround_sound_packet(&self, surround_sound: bool) -> Option<Vec<u8>>;

    fn get_mic_connected_packet(&self) -> Option<Vec<u8>>;

    fn get_pairing_info_packet(&self) -> Option<Vec<u8>>;

    fn get_product_color_packet(&self) -> Option<Vec<u8>>;

    fn get_side_tone_packet(&self) -> Option<Vec<u8>>;

    fn set_side_tone_packet(&self, side_tone_on: bool) -> Option<Vec<u8>>;

    fn get_side_tone_volume_packet(&self) -> Option<Vec<u8>>;

    fn set_side_tone_volume_packet(&self, volume: u8) -> Option<Vec<u8>>;

    fn get_voice_prompt_packet(&self) -> Option<Vec<u8>>;

    fn set_voice_prompt_packet(&self, enable: bool) -> Option<Vec<u8>>;

    fn get_wireless_connected_status_packet(&self) -> Option<Vec<u8>>;

    fn get_sirk_packet(&self) -> Option<Vec<u8>>;

    fn reset_sirk_packet(&self) -> Option<Vec<u8>>;

    fn get_silent_mode_packet(&self) -> Option<Vec<u8>>;

    fn set_silent_mode_packet(&self, silence: bool) -> Option<Vec<u8>>;

    fn get_noise_gate_packet(&self) -> (packet: Option<Vec<u8>>)
        default_ensures
            packet is None,
    {
        None
    }

    fn set_noise_gate_packet(&self, enable: bool) -> (packet: Option<Vec<u8>>)
        default_ensures
            packet is None,
    {
        None
    }

    /// The events that a response stands for; nothing where it is not understood.
    fn get_event_from_device_response(&self, response: &[u8]) -> Option<Vec<DeviceEvent>>;

    /// Whether packets that the headset sends on its own are to be listened for.
    fn allow_passive_refresh(&mut self) -> bool;

    /// Called before each packet is written.
    fn prepare_write(&mut self)
        default_ensures
            &*final(self) == &*old(self),
    {
    }

    /// The buffer that a response is read into.
    fn get_response_buffer(&self) -> (buf: Vec<u8>)
        default_ensures
            buf@ == Seq::new(256, |i: int| 0u8),
    {
        let buf: Vec<u8> = vec![0; RESPONSE_BUFFER_SIZE];
        assert(buf@ =~= Seq::new(256, |i: int| 0u8));
        buf
    }

    fn can_set_mute(&self) -> (b: bool)
        default_ensures
            exists|packet: Option<Vec<u8>>|
                call_ensures(Self::set_mute_packet, (self, false), packet) && b == (packet is Some),
    {
        let packet = self.set_mute_packet(false);
        packet.is_some()
    }

    fn can_set_surround_sound(&self) -> (b: bool)
        default_ensures
            exists|packet: Option<Vec<u8>>|
                call_ensures(Self::set_surround_sound_packet, (self, false), packet) && b == (
                packet is Some),
    {
        let packet = self.set_surround_sound_packet(false);
        packet.is_some()
    }

    fn can_set_side_tone(&self) -> (b: bool)
        default_ensures
            exists|packet: Option<Vec<u8>>|
                call_ensures(Self::set_side_tone_packet, (self, false), packet) && b == (
                packet is Some),
    {
        let packet = self.set_side_tone_packet(false);
        packet.is_some()
    }

    fn can_set_automatic_shutdown(&self) -> (b: bool)
        default_ensures
            exists|packet: Option<Vec<u8>>|
                call_ensures(
                    Self::set_automatic_shut_down_packet,
                    (self, Duration { secs: 0, nanos: 0 }),
                    packet,
                ) && b == (packet is Some),
    {
        let packet = self.set_automatic_shut_down_packet(Duration::from_secs(0));
        packet.is_some()
    }

    fn can_set_side_tone_volume(&self) -> (b: bool)
        default_ensures
            exists|packet: Option<Vec<u8>>|
                call_ensures(Self::set_side_tone_volume_packet, (self, 0u8), packet) && b == (
                packet is Some),
    {
        let packet = self.set_side_tone_volume_packet(0);
        packet.is_some()
    }

    fn can_set_voice_prompt(&self) -> (b: bool)
        default_ensures
            exists|packet: Option<Vec<u8>>|
                call_ensures(Self::set_voice_prompt_packet, (self, false), packet) && b == (
                packet is Some),
    {
        let packet = self.set_voice_prompt_packet(false);
        packet.is_some()
    }

    fn can_set_silent_mode(&self) -> (b: bool)
        default_ensures
            exists|packet: Option<Vec<u8>>|
                call_ensures(Self::set_silent_mode_packet, (self, false), packet) && b == (
                packet is Some),
    {
        let packet = self.set_silent_mode_packet(false);
        packet.is_some()
    }

    /// Whether the equalizer can be set, where `band_packet` is the packet, if there
    /// is one, that sets the first band to no gain. The gain of a band is a floating
    /// point number, so that packet is made outside.
    fn can_set_equalizer(&self, band_packet: &Option<Vec<u8>>) -> (b: bool)
        default_ensures
            b == (band_packet is Some),
    {
        band_packet.is_some()
    }

    fn can_set_noise_gate(&self) -> (b: bool)
        default_ensures
            exists|packet: Option<Vec<u8>>|
                call_ensures(Self::set_noise_gate_packet, (self, true), packet) && b == (
                packet is Some),
    {
        let packet = self.set_noise_gate_packet(true);
        packet.is_some()
    }

    /// The settings that the headset accepts, with `band_packet` as above.
    fn capabilities(&self, band_packet: &Option<Vec<u8>>) -> (c: Capabilities)
        default_ensures
            call_ensures(Self::can_set_mute, (self,), c.mute),
            call_ensures(Self::can_set_surround_sound, (self,), c.surround_sound),
            call_ensures(Self::can_set_side_tone, (self,), c.side_tone),
            call_ensures(Self::can_set_automatic_shutdown, (self,), c.automatic_shutdown),
            call_ensures(Self::can_set_side_tone_volume, (self,), c.side_tone_volume),
            call_ensures(Self::can_set_voice_prompt, (self,), c.voice_prompt),
            call_ensures(Self::can_set_silent_mode, (self,), c.silent_mode),
            call_ensures(Self::can_set_equalizer, (self, band_packet), c.equalizer),
            call_ensures(Self::can_set_noise_gate, (self,), c.noise_gate),
    {
        Capabilities {
            mute: self.can_set_mute(),
            surround_sound: self.can_set_surround_sound(),
            side_tone: self.can_set_side_tone(),
            automatic_shutdown: self.can_set_automatic_shutdown(),
            side_tone_volume: self.can_set_side_tone_volume(),
            voice_prompt: self.can_set_voice_prompt(),
            silent_mode: self.can_set_silent_mode(),
            equalizer: self.can_set_equalizer(band_packet),
            noise_gate: self.can_set_noise_gate(),
        }
    }

    /// The packets that ask for everything that the headset can tell, in order.
    fn get_query_packets(&self) -> (packets: Vec<Vec<u8>>)
        default_ensures
            exists|answers: Seq<Option<Vec<u8>>>|
                {
                    &&& packets@ == #[trigger] present(answers)
                    &&& answers.len() == 15
                    &&& call_ensures(Self::get_wireless_connected_status_packet, (self,), answers[0])
                    &&& call_ensures(Self::get_charging_packet, (self,), answers[1])
                    &&& call_ensures(Self::get_battery_packet, (self,), answers[2])
                    &&& call_ensures(Self::get_automatic_shut_down_packet, (self,), answers[3])
                    &&& call_ensures(Self::get_mute_packet, (self,), answers[4])
                    &&& call_ensures(Self::get_surround_sound_packet, (self,), answers[5])
                    &&& call_ensures(Self::get_mic_connected_packet, (self,), answers[6])
                    &&& call_ensures(Self::get_pairing_info_packet, (self,), answers[7])
                    &&& call_ensures(Self::get_product_color_packet, (self,), answers[8])
                    &&& call_ensures(Self::get_side_tone_packet, (self,), answers[9])
                    &&& call_ensures(Self::get_side_tone_volume_packet, (self,), answers[10])
                    &&& call_ensures(Self::get_voice_prompt_packet, (self,), answers[11])
                    &&& call_ensures(Self::get_sirk_packet, (self,), answers[12])
                    &&& call_ensures(Self::get_silent_mode_packet, (self,), answers[13])
                    &&& call_ensures(Self::get_noise_gate_packet, (self,), answers[14])
                },
    {
        let answers: Vec<Option<Vec<u8>>> = vec![
            self.get_wireless_connected_status_packet(),
            self.get_charging_packet(),
            self.get_battery_packet(),
            self.get_automatic_shut_down_packet(),
            self.get_mute_packet(),
            self.get_surround_sound_packet(),
            self.get_mic_connected_packet(),
            self.get_pairing_info_packet(),
            self.get_product_color_packet(),
            self.get_side_tone_packet(),
            self.get_side_tone_volume_packet(),
            self.get_voice_prompt_packet(),
            self.get_sirk_packet(),
            self.get_silent_mode_packet(),
            self.get_noise_gate_packet(),
        ];
        let ghost given = answers@;
        let packets = present_packets(answers);
        assert(packets@ == present(given));
        packets
    }

    /// The events that a read came back with, where `buf` is the whole buffer
    /// that it filled; nothing where it failed or read nothing.
    fn wait_for_updates(&self, read: Result<usize, HidError>, buf: &[u8]) -> (events: Option<
        Vec<DeviceEvent>,
    >)
        default_ensures
            (read matches Ok(n) && n != 0) ==> call_ensures(
                Self::get_event_from_device_response,
                (self, buf),
                events,
            ),
            !(read matches Ok(n) && n != 0) ==> events is None,
    {
        match read {
            Ok(n) => {
                if n == 0 {
                    None
                } else {
                    self.get_event_from_device_response(buf)
                }
            },
            Err(_) => None,
        }
    }

    /// What is done about a setting.
    fn try_apply(&self, command: DeviceEvent) -> (plan: CommandPlan)
        default_ensures
            exists|packet: Option<Vec<u8>>|
                is_plan(command, packet, plan) && match command {
                    DeviceEvent::AutomaticShutdownAfter(delay) => call_ensures(
                        Self::set_automatic_shut_down_packet,
                        (self, delay),
                        packet,
                    ),
                    DeviceEvent::Muted(mute) => call_ensures(
                        Self::set_mute_packet,
                        (self, mute),
                        packet,
                    ),
                    DeviceEvent::SideToneOn(enable) => call_ensures(
                        Self::set_side_tone_packet,
                        (self, enable),
                        packet,
                    ),
                    DeviceEvent::SideToneVolume(volume) => call_ensures(
                        Self::set_side_tone_volume_packet,
                        (self, volume),
                        packet,
                    ),
                    DeviceEvent::VoicePrompt(enable) => call_ensures(
                        Self::set_voice_prompt_packet,
                        (self, enable),
                        packet,
                    ),
                    DeviceEvent::SurroundSound(surround_sound) => call_ensures(
                        Self::set_surround_sound_packet,
                        (self, surround_sound),
                        packet,
                    ),
                    DeviceEvent::Silent(mute_playback) => call_ensures(
                        Self::set_silent_mode_packet,
                        (self, mute_playback),
                        packet,
                    ),
                    DeviceEvent::NoiseGateActive(activate) => call_ensures(
                        Self::set_noise_gate_packet,
                        (self, activate),
                        packet,
                    ),
                    _ => true,
                },
    {
        let packet = match command {
            DeviceEvent::AutomaticShutdownAfter(delay) => self.set_automatic_shut_down_packet(delay),
            DeviceEvent::Muted(mute) => self.set_mute_packet(mute),
            DeviceEvent::SideToneOn(enable) => self.set_side_tone_packet(enable),
            DeviceEvent::SideToneVolume(volume) => self.set_side_tone_volume_packet(volume),
            DeviceEvent::VoicePrompt(enable) => self.set_voice_prompt_packet(enable),
            DeviceEvent::SurroundSound(surround_sound) => self.set_surround_sound_packet(
                surround_sound,
            ),
            DeviceEvent::Silent(mute_playback) => self.set_silent_mode_packet(mute_playback),
            DeviceEvent::NoiseGateActive(activate) => self.set_noise_gate_packet(activate),
            _ => None,
        };
        let ghost given = packet;
        let plan = plan_command(command, packet);
        assert(is_plan(command, given, plan));
        plan
    }
}

/// The number that the low 32 bits of `n` stand for with a sign.
pub open spec fn low_32_bits(n: int) -> int {
    let low = n % 0x1_0000_0000;
    if low < 0x8000_0000 { low } else { low - 0x1_0000_0000 }
}

/// A span as the limit of a read, in milliseconds. Of one that does not fit, the
/// low 32 bits are kept.
pub fn read_timeout_millis(duration: Duration) -> (millis: i32)
    ensures
        millis == low_32_bits(duration.whole_millis()),
        duration.whole_millis() <= i32::MAX ==> millis == duration.whole_millis(),
{
    let all: u128 = duration.as_millis();
    assert(all % 0x1_0000_0000u128 < 0x8000_0000u128 ==> all as i32 == all % 0x1_0000_0000u128)
        by (bit_vector);
    assert(all % 0x1_0000_0000u128 >= 0x8000_0000u128 ==> all as i32 == (all % 0x1_0000_0000u128)
        - 0x1_0000_0000u128) by (bit_vector);
    #[verifier::truncate]
    (all as i32)
}

} // verus!
