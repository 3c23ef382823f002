//! What holds of the state of a headset.
use vstd::prelude::*;
use crate::events::DeviceEvent;
use crate::properties::DeviceProperties;
use crate::state::{
    apply_event, apply_events, capabilities_of, cleared, with_capabilities, Capabilities,
};

verus! {

/// A report sets the one property that it is about to the value that it carries, and
/// changes nothing else.
pub proof fn report_sets_its_property(p: DeviceProperties, e: DeviceEvent)
    ensures
        e matches DeviceEvent::BatterLevel(v) ==> apply_event(p, e) == (DeviceProperties {
            battery_level: Some(v),
            ..p
        }),
        e matches DeviceEvent::Charging(v) ==> apply_event(p, e) == (DeviceProperties {
            charging: Some(v),
            ..p
        }),
        e matches DeviceEvent::Muted(v) ==> apply_event(p, e) == (DeviceProperties {
            muted: Some(v),
            ..p
        }),
        e matches DeviceEvent::MicConnected(v) ==> apply_event(p, e) == (DeviceProperties {
            mic_connected: Some(v),
            ..p
        }),
        e matches DeviceEvent::AutomaticShutdownAfter(v) ==> apply_event(p, e) == (DeviceProperties {
            automatic_shutdown_after: Some(v),
            ..p
        }),
        e matches DeviceEvent::PairingInfo(v) ==> apply_event(p, e) == (DeviceProperties {
            pairing_info: Some(v),
            ..p
        }),
        e matches DeviceEvent::ProductColor(v) ==> apply_event(p, e) == (DeviceProperties {
            product_color: Some(v),
            ..p
        }),
        e matches DeviceEvent::SideToneOn(v) ==> apply_event(p, e) == (DeviceProperties {
            side_tone_on: Some(v),
            ..p
        }),
        e matches DeviceEvent::SideToneVolume(v) ==> apply_event(p, e) == (DeviceProperties {
            side_tone_volume: Some(v),
            ..p
        }),
        e matches DeviceEvent::SurroundSound(v) ==> apply_event(p, e) == (DeviceProperties {
            surround_sound: Some(v),
            ..p
        }),
        e matches DeviceEvent::VoicePrompt(v) ==> apply_event(p, e) == (DeviceProperties {
            voice_prompt_on: Some(v),
            ..p
        }),
        e matches DeviceEvent::WirelessConnected(v) ==> apply_event(p, e) == (DeviceProperties {
            connected: Some(v),
            ..p
        }),
        e matches DeviceEvent::Silent(v) ==> apply_event(p, e) == (DeviceProperties {
            silent: Some(v),
            ..p
        }),
        e matches DeviceEvent::NoiseGateActive(v) ==> apply_event(p, e) == (DeviceProperties {
            noise_gate_active: Some(v),
            ..p
        }),
        e is RequireSIRKReset ==> apply_event(p, e) == p,
{
}

/// Events are taken up one after another: none changes nothing, and one more is taken
/// up after all that came before it.
pub proof fn events_are_taken_up_in_turn(
    p: DeviceProperties,
    events: Seq<DeviceEvent>,
    e: DeviceEvent,
)
    ensures
        apply_events(p, Seq::empty()) == p,
        apply_events(p, seq![e]) == apply_event(p, e),
        apply_events(p, events.push(e)) == apply_event(apply_events(p, events), e),
        apply_events(p, seq![e] + events) == apply_events(apply_event(p, e), events),
{
    assert(events.push(e).drop_last() =~= events);
    assert(seq![e].drop_last() =~= Seq::empty());
    crate::laws::batches_of_events_add_up(p, seq![e], events);
}

/// After a batch of events every property has the value of the last event of the batch
/// that reports it.
pub proof fn last_report_in_a_batch_counts(p: DeviceProperties, events: Seq<DeviceEvent>, k: int)
    requires
        0 <= k < events.len(),
    ensures
        ({
            let q = apply_events(p, events);
            &&& events[k] matches DeviceEvent::BatterLevel(v) ==> (forall|j: int|
                k < j < events.len() ==> !((#[trigger] events[j]) is BatterLevel)) ==> q.battery_level == Some(v)
            &&& events[k] matches DeviceEvent::Charging(v) ==> (forall|j: int|
                k < j < events.len() ==> !((#[trigger] events[j]) is Charging)) ==> q.charging == Some(v)
            &&& events[k] matches DeviceEvent::Muted(v) ==> (forall|j: int|
                k < j < events.len() ==> !((#[trigger] events[j]) is Muted)) ==> q.muted == Some(v)
            &&& events[k] matches DeviceEvent::MicConnected(v) ==> (forall|j: int|
                k < j < events.len() ==> !((#[trigger] events[j]) is MicConnected)) ==> q.mic_connected == Some(v)
            &&& events[k] matches DeviceEvent::AutomaticShutdownAfter(v) ==> (forall|j: int|
                k < j < events.len() ==> !((#[trigger] events[j]) is AutomaticShutdownAfter)) ==> q.automatic_shutdown_after == Some(v)
            &&& events[k] matches DeviceEvent::PairingInfo(v) ==> (forall|j: int|
                k < j < events.len() ==> !((#[trigger] events[j]) is PairingInfo)) ==> q.pairing_info == Some(v)
            &&& events[k] matches DeviceEvent::ProductColor(v) ==> (forall|j: int|
                k < j < events.len() ==> !((#[trigger] events[j]) is ProductColor)) ==> q.product_color == Some(v)
            &&& events[k] matches DeviceEvent::SideToneOn(v) ==> (forall|j: int|
                k < j < events.len() ==> !((#[trigger] events[j]) is SideToneOn)) ==> q.side_tone_on == Some(v)
            &&& events[k] matches DeviceEvent::SideToneVolume(v) ==> (forall|j: int|
                k < j < events.len() ==> !((#[trigger] events[j]) is SideToneVolume)) ==> q.side_tone_volume == Some(v)
            &&& events[k] matches DeviceEvent::SurroundSound(v) ==> (forall|j: int|
                k < j < events.len() ==> !((#[trigger] events[j]) is SurroundSound)) ==> q.surround_sound == Some(v)
            &&& events[k] matches DeviceEvent::VoicePrompt(v) ==> (forall|j: int|
                k < j < events.len() ==> !((#[trigger] events[j]) is VoicePrompt)) ==> q.voice_prompt_on == Some(v)
            &&& events[k] matches DeviceEvent::WirelessConnected(v) ==> (forall|j: int|
                k < j < events.len() ==> !((#[trigger] events[j]) is WirelessConnected)) ==> q.connected == Some(v)
            &&& events[k] matches DeviceEvent::Silent(v) ==> (forall|j: int|
                k < j < events.len() ==> !((#[trigger] events[j]) is Silent)) ==> q.silent == Some(v)
            &&& events[k] matches DeviceEvent::NoiseGateActive(v) ==> (forall|j: int|
                k < j < events.len() ==> !((#[trigger] events[j]) is NoiseGateActive)) ==> q.noise_gate_active == Some(v)
        }),
    decreases events.len(),
{
    let front = events.drop_last();
    report_sets_its_property(apply_events(p, front), events.last());
    if k < front.len() {
        last_report_in_a_batch_counts(p, front, k);
        assert(forall|j: int| 0 <= j < front.len() ==> front[j] == events[j]);
        assert(events[events.len() - 1] == events.last());
    }
}

/// A property that no event of the batch reports is as it was before.
pub proof fn unreported_properties_are_kept(p: DeviceProperties, events: Seq<DeviceEvent>)
    ensures
        ({
            let q = apply_events(p, events);
            &&& (forall|j: int| 0 <= j < events.len() ==> !((#[trigger] events[j]) is BatterLevel))
                ==> q.battery_level == p.battery_level
            &&& (forall|j: int| 0 <= j < events.len() ==> !((#[trigger] events[j]) is Charging))
                ==> q.charging == p.charging
            &&& (forall|j: int| 0 <= j < events.len() ==> !((#[trigger] events[j]) is Muted))
                ==> q.muted == p.muted
            &&& (forall|j: int| 0 <= j < events.len() ==> !((#[trigger] events[j]) is MicConnected))
                ==> q.mic_connected == p.mic_connected
            &&& (forall|j: int| 0 <= j < events.len() ==> !((#[trigger] events[j]) is AutomaticShutdownAfter))
                ==> q.automatic_shutdown_after == p.automatic_shutdown_after
            &&& (forall|j: int| 0 <= j < events.len() ==> !((#[trigger] events[j]) is PairingInfo))
                ==> q.pairing_info == p.pairing_info
            &&& (forall|j: int| 0 <= j < events.len() ==> !((#[trigger] events[j]) is ProductColor))
                ==> q.product_color == p.product_color
            &&& (forall|j: int| 0 <= j < events.len() ==> !((#[trigger] events[j]) is SideToneOn))
                ==> q.side_tone_on == p.side_tone_on
            &&& (forall|j: int| 0 <= j < events.len() ==> !((#[trigger] events[j]) is SideToneVolume))
                ==> q.side_tone_volume == p.side_tone_volume
            &&& (forall|j: int| 0 <= j < events.len() ==> !((#[trigger] events[j]) is SurroundSound))
                ==> q.surround_sound == p.surround_sound
            &&& (forall|j: int| 0 <= j < events.len() ==> !((#[trigger] events[j]) is VoicePrompt))
                ==> q.voice_prompt_on == p.voice_prompt_on
            &&& (forall|j: int| 0 <= j < events.len() ==> !((#[trigger] events[j]) is WirelessConnected))
                ==> q.connected == p.connected
            &&& (forall|j: int| 0 <= j < events.len() ==> !((#[trigger] events[j]) is Silent))
                ==> q.silent == p.silent
            &&& (forall|j: int| 0 <= j < events.len() ==> !((#[trigger] events[j]) is NoiseGateActive))
                ==> q.noise_gate_active == p.noise_gate_active
            &&& q.product_id == p.product_id
            &&& q.vendor_id == p.vendor_id
            &&& q.device_name == p.device_name
            &&& q.can_set_mute == p.can_set_mute
            &&& q.can_set_surround_sound == p.can_set_surround_sound
            &&& q.can_set_side_tone == p.can_set_side_tone
            &&& q.can_set_automatic_shutdown == p.can_set_automatic_shutdown
            &&& q.can_set_side_tone_volume == p.can_set_side_tone_volume
            &&& q.can_set_voice_prompt == p.can_set_voice_prompt
            &&& q.can_set_silent_mode == p.can_set_silent_mode
            &&& q.can_set_equalizer == p.can_set_equalizer
            &&& q.can_set_noise_gate == p.can_set_noise_gate
        }),
    decreases events.len(),
{
    if events.len() > 0 {
        let front = events.drop_last();
        unreported_properties_are_kept(p, front);
        report_sets_its_property(apply_events(p, front), events.last());
        assert(forall|j: int| 0 <= j < front.len() ==> front[j] == events[j]);
        assert(events[events.len() - 1] == events.last());
    }
}

/// Each capability is taken down under its own name, and nothing else changes.
pub proof fn capabilities_are_taken_down(p: DeviceProperties, c: Capabilities)
    ensures
        with_capabilities(p, c).can_set_mute == c.mute,
        capabilities_of(p).mute == p.can_set_mute,
        with_capabilities(p, c).can_set_surround_sound == c.surround_sound,
        capabilities_of(p).surround_sound == p.can_set_surround_sound,
        with_capabilities(p, c).can_set_side_tone == c.side_tone,
        capabilities_of(p).side_tone == p.can_set_side_tone,
        with_capabilities(p, c).can_set_automatic_shutdown == c.automatic_shutdown,
        capabilities_of(p).automatic_shutdown == p.can_set_automatic_shutdown,
        with_capabilities(p, c).can_set_side_tone_volume == c.side_tone_volume,
        capabilities_of(p).side_tone_volume == p.can_set_side_tone_volume,
        with_capabilities(p, c).can_set_voice_prompt == c.voice_prompt,
        capabilities_of(p).voice_prompt == p.can_set_voice_prompt,
        with_capabilities(p, c).can_set_silent_mode == c.silent_mode,
        capabilities_of(p).silent_mode == p.can_set_silent_mode,
        with_capabilities(p, c).can_set_equalizer == c.equalizer,
        capabilities_of(p).equalizer == p.can_set_equalizer,
        with_capabilities(p, c).can_set_noise_gate == c.noise_gate,
        capabilities_of(p).noise_gate == p.can_set_noise_gate,
        with_capabilities(p, c).product_id == p.product_id,
        with_capabilities(p, c).vendor_id == p.vendor_id,
        with_capabilities(p, c).device_name == p.device_name,
        with_capabilities(p, c).battery_level == p.battery_level,
        with_capabilities(p, c).charging == p.charging,
        with_capabilities(p, c).muted == p.muted,
        with_capabilities(p, c).mic_connected == p.mic_connected,
        with_capabilities(p, c).automatic_shutdown_after == p.automatic_shutdown_after,
        with_capabilities(p, c).pairing_info == p.pairing_info,
        with_capabilities(p, c).product_color == p.product_color,
        with_capabilities(p, c).side_tone_on == p.side_tone_on,
        with_capabilities(p, c).side_tone_volume == p.side_tone_volume,
        with_capabilities(p, c).surround_sound == p.surround_sound,
        with_capabilities(p, c).voice_prompt_on == p.voice_prompt_on,
        with_capabilities(p, c).connected == p.connected,
        with_capabilities(p, c).silent == p.silent,
        with_capabilities(p, c).noise_gate_active == p.noise_gate_active,
{
}

/// After clearing, every report is forgotten; which headset it is and what can be set
/// on it are as before.
pub proof fn clearing_keeps_what_was_not_reported(p: DeviceProperties)
    ensures
        cleared(p).battery_level is None,
        cleared(p).charging is None,
        cleared(p).muted is None,
        cleared(p).mic_connected is None,
        cleared(p).automatic_shutdown_after is None,
        cleared(p).pairing_info is None,
        cleared(p).product_color is None,
        cleared(p).side_tone_on is None,
        cleared(p).side_tone_volume is None,
        cleared(p).surround_sound is None,
        cleared(p).voice_prompt_on is None,
        cleared(p).connected is None,
        cleared(p).silent is None,
        cleared(p).noise_gate_active is None,
        cleared(p).product_id == p.product_id,
        cleared(p).vendor_id == p.vendor_id,
        cleared(p).device_name == p.device_name,
        cleared(p).can_set_mute == p.can_set_mute,
        cleared(p).can_set_surround_sound == p.can_set_surround_sound,
        cleared(p).can_set_side_tone == p.can_set_side_tone,
        cleared(p).can_set_automatic_shutdown == p.can_set_automatic_shutdown,
        cleared(p).can_set_side_tone_volume == p.can_set_side_tone_volume,
        cleared(p).can_set_voice_prompt == p.can_set_voice_prompt,
        cleared(p).can_set_silent_mode == p.can_set_silent_mode,
        cleared(p).can_set_equalizer == p.can_set_equalizer,
        cleared(p).can_set_noise_gate == p.can_set_noise_gate,
{
}

} // verus!
