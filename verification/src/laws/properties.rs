//! What holds of the table of properties and of its listings.
use vstd::prelude::*;
use crate::events::{ChargingStatus, Color, DeviceEvent};
use crate::listing::{known_lines, listing, marker_text, row_line};
use crate::properties::{
    blank_properties, property_table, rows, DeviceProperties, PropertyDescriptor,
    PropertyDescriptorWrapper, PropertyEvent, PropertyModel, PropertyType, PropertyValue,
    ValueModel,
};
use crate::state::apply_event;
use crate::text::{decimal, joined, padded};

verus! {

/// The table has fourteen rows, in this order, each with its own label and unit.
pub proof fn rows_are_labelled(p: DeviceProperties)
    ensures
        property_table(p).len() == 14,
        property_table(p)[0].prefix == "Charging status:"@,
        property_table(p)[0].suffix == ""@,
        property_table(p)[1].prefix == "Battery level:"@,
        property_table(p)[1].suffix == "%"@,
        property_table(p)[2].prefix == "Muted:"@,
        property_table(p)[2].suffix == ""@,
        property_table(p)[3].prefix == "Mic connected:"@,
        property_table(p)[3].suffix == ""@,
        property_table(p)[4].prefix == "Automatic shutdown after:"@,
        property_table(p)[4].suffix == "min"@,
        property_table(p)[5].prefix == "Pairing info:"@,
        property_table(p)[5].suffix == ""@,
        property_table(p)[6].prefix == "Product color:"@,
        property_table(p)[6].suffix == ""@,
        property_table(p)[7].prefix == "Side tone:"@,
        property_table(p)[7].suffix == ""@,
        property_table(p)[8].prefix == "Side tone volume:"@,
        property_table(p)[8].suffix == ""@,
        property_table(p)[9].prefix == "Surround sound:"@,
        property_table(p)[9].suffix == ""@,
        property_table(p)[10].prefix == "Voice prompt:"@,
        property_table(p)[10].suffix == ""@,
        property_table(p)[11].prefix == "Playback muted:"@,
        property_table(p)[11].suffix == ""@,
        property_table(p)[12].prefix == "Noise gate active:"@,
        property_table(p)[12].suffix == ""@,
        property_table(p)[13].prefix == "Connected:"@,
        property_table(p)[13].suffix == ""@,
{
}

/// Each row shows the property that its label names: what is known of it, and nothing
/// where it was never reported.
pub proof fn rows_show_their_property(p: DeviceProperties)
    ensures
        p.charging is None <==> property_table(p)[0].value == ValueModel::Text(None),
        p.charging == Some(ChargingStatus::NotCharging) ==> property_table(p)[0].value
            == ValueModel::Text(Some("Not charging"@)),
        p.charging == Some(ChargingStatus::Charging) ==> property_table(p)[0].value
            == ValueModel::Text(Some("Charging"@)),
        p.charging == Some(ChargingStatus::FullyCharged) ==> property_table(p)[0].value
            == ValueModel::Text(Some("Fully charged"@)),
        p.charging == Some(ChargingStatus::ChargeError) ==> property_table(p)[0].value
            == ValueModel::Text(Some("Charging error!"@)),
        p.product_color is None <==> property_table(p)[6].value == ValueModel::Text(None),
        p.product_color == Some(Color::BlackBlack) ==> property_table(p)[6].value
            == ValueModel::Text(Some("Black"@)),
        p.product_color == Some(Color::WhiteWhite) ==> property_table(p)[6].value
            == ValueModel::Text(Some("White"@)),
        p.product_color == Some(Color::BlackRed) ==> property_table(p)[6].value
            == ValueModel::Text(Some("Red"@)),
        p.product_color matches Some(Color::UnknownColor(n)) ==> property_table(p)[6].value
            == ValueModel::Text(Some("Unknown color "@ + decimal(n as nat))),
        property_table(p)[4].value matches ValueModel::Int(shown, choices) && choices == seq![
            0u8,
            5u8,
            10u8,
            15u8,
            20u8,
            30u8,
            40u8,
            60u8,
        ] && (shown is Some <==> p.automatic_shutdown_after is Some),
        p.automatic_shutdown_after matches Some(d) ==> (
        property_table(p)[4].value matches ValueModel::Int(Some(minutes), _) && (d.secs / 60
            - minutes) % 256 == 0),
        property_table(p)[8].value == ValueModel::Int(
            p.side_tone_volume,
            Seq::new(11, |i: int| (25 * i) as u8),
        ),
        property_table(p)[1].value == ValueModel::Int(p.battery_level, Seq::empty()),
        property_table(p)[2].value == ValueModel::Bool(p.muted),
        property_table(p)[3].value == ValueModel::Bool(p.mic_connected),
        property_table(p)[5].value == ValueModel::Int(p.pairing_info, Seq::empty()),
        property_table(p)[7].value == ValueModel::Bool(p.side_tone_on),
        property_table(p)[9].value == ValueModel::Bool(p.surround_sound),
        property_table(p)[10].value == ValueModel::Bool(p.voice_prompt_on),
        property_table(p)[11].value == ValueModel::Bool(p.silent),
        property_table(p)[12].value == ValueModel::Bool(p.noise_gate_active),
        property_table(p)[13].value == ValueModel::Bool(p.connected),
{
    assert(property_table(p)[4].value->Int_1 =~= seq![
        0u8,
        5u8,
        10u8,
        15u8,
        20u8,
        30u8,
        40u8,
        60u8,
    ]);
    assert(property_table(p)[8].value->Int_1 =~= Seq::new(11, |i: int| (25 * i) as u8));
    assert(property_table(p)[1].value->Int_1 =~= Seq::empty());
    assert(property_table(p)[5].value->Int_1 =~= Seq::empty());
}

/// Whether a row can be set is decided by the capability for that very property, and
/// the event that is asked for is the one that reports it.
pub proof fn rows_are_set_by_their_capability(p: DeviceProperties)
    ensures
        property_table(p)[0].property_type == PropertyType::AlwaysReadOnly,
        property_table(p)[0].event == PropertyEvent::NoEvent,
        property_table(p)[1].property_type == PropertyType::AlwaysReadOnly,
        property_table(p)[1].event == PropertyEvent::NoEvent,
        p.can_set_mute ==> property_table(p)[2].property_type == PropertyType::ReadWrite,
        !p.can_set_mute ==> property_table(p)[2].property_type == PropertyType::ReadOnly,
        property_table(p)[2].event == PropertyEvent::Muted,
        property_table(p)[3].property_type == PropertyType::AlwaysReadOnly,
        property_table(p)[3].event == PropertyEvent::NoEvent,
        p.can_set_automatic_shutdown ==> property_table(p)[4].property_type == PropertyType::ReadWrite,
        !p.can_set_automatic_shutdown ==> property_table(p)[4].property_type == PropertyType::ReadOnly,
        property_table(p)[4].event == PropertyEvent::AutomaticShutdownAfter,
        property_table(p)[5].property_type == PropertyType::AlwaysReadOnly,
        property_table(p)[5].event == PropertyEvent::NoEvent,
        property_table(p)[6].property_type == PropertyType::AlwaysReadOnly,
        property_table(p)[6].event == PropertyEvent::NoEvent,
        p.can_set_side_tone ==> property_table(p)[7].property_type == PropertyType::ReadWrite,
        !p.can_set_side_tone ==> property_table(p)[7].property_type == PropertyType::ReadOnly,
        property_table(p)[7].event == PropertyEvent::SideToneOn,
        p.can_set_side_tone_volume ==> property_table(p)[8].property_type == PropertyType::ReadWrite,
        !p.can_set_side_tone_volume ==> property_table(p)[8].property_type == PropertyType::ReadOnly,
        property_table(p)[8].event == PropertyEvent::SideToneVolume,
        p.can_set_surround_sound ==> property_table(p)[9].property_type == PropertyType::ReadWrite,
        !p.can_set_surround_sound ==> property_table(p)[9].property_type == PropertyType::ReadOnly,
        property_table(p)[9].event == PropertyEvent::SurroundSound,
        p.can_set_voice_prompt ==> property_table(p)[10].property_type == PropertyType::ReadWrite,
        !p.can_set_voice_prompt ==> property_table(p)[10].property_type == PropertyType::ReadOnly,
        property_table(p)[10].event == PropertyEvent::VoicePrompt,
        p.can_set_silent_mode ==> property_table(p)[11].property_type == PropertyType::ReadWrite,
        !p.can_set_silent_mode ==> property_table(p)[11].property_type == PropertyType::ReadOnly,
        property_table(p)[11].event == PropertyEvent::Silent,
        p.can_set_noise_gate ==> property_table(p)[12].property_type == PropertyType::ReadWrite,
        !p.can_set_noise_gate ==> property_table(p)[12].property_type == PropertyType::ReadOnly,
        property_table(p)[12].event == PropertyEvent::NoiseGateActive,
        property_table(p)[13].property_type == PropertyType::AlwaysReadOnly,
        property_table(p)[13].event == PropertyEvent::NoEvent,
{
}

/// What is asked for carries the value: a switch turns the one thing on or off that
/// its kind names, a volume is taken as it is, and minutes are sixty seconds each.
pub proof fn events_carry_the_value(on: bool, n: u8, s: String)
    ensures
        on.event_of(PropertyEvent::Muted) == Some(DeviceEvent::Muted(on)),
        n.event_of(PropertyEvent::Muted) is None,
        on.event_of(PropertyEvent::SideToneOn) == Some(DeviceEvent::SideToneOn(on)),
        n.event_of(PropertyEvent::SideToneOn) is None,
        on.event_of(PropertyEvent::SurroundSound) == Some(DeviceEvent::SurroundSound(on)),
        n.event_of(PropertyEvent::SurroundSound) is None,
        on.event_of(PropertyEvent::VoicePrompt) == Some(DeviceEvent::VoicePrompt(on)),
        n.event_of(PropertyEvent::VoicePrompt) is None,
        on.event_of(PropertyEvent::Silent) == Some(DeviceEvent::Silent(on)),
        n.event_of(PropertyEvent::Silent) is None,
        on.event_of(PropertyEvent::NoiseGateActive) == Some(DeviceEvent::NoiseGateActive(on)),
        n.event_of(PropertyEvent::NoiseGateActive) is None,
        on.event_of(PropertyEvent::SideToneVolume) is None,
        on.event_of(PropertyEvent::AutomaticShutdownAfter) is None,
        on.event_of(PropertyEvent::NoEvent) is None,
        n.event_of(PropertyEvent::NoEvent) is None,
        n.event_of(PropertyEvent::SideToneVolume) == Some(DeviceEvent::SideToneVolume(n)),
        n.event_of(PropertyEvent::AutomaticShutdownAfter) matches Some(
            DeviceEvent::AutomaticShutdownAfter(d),
        ) && d.secs == 60 * n && d.nanos == 0,
        forall|kind: PropertyEvent| (#[trigger] s.event_of(kind)) is None,
{
}

/// A value of a property is shown as it is: a number in decimal, a switch by its
/// name, a text unchanged.
pub proof fn values_are_shown(on: bool, n: u8, s: String)
    ensures
        n.text() == decimal(n as nat),
        on ==> on.text() == "true"@,
        !on ==> on.text() == "false"@,
        s.text() == s@,
{
}

/// A row stands for exactly what its property holds.
pub proof fn rows_stand_for_properties(
    number: PropertyDescriptor<u8>,
    choices: &'static [u8],
    switch: PropertyDescriptor<bool>,
    text: PropertyDescriptor<String>,
    all: Seq<PropertyDescriptorWrapper>,
    i: int,
)
    requires
        0 <= i < all.len(),
    ensures
        PropertyDescriptorWrapper::Int(number, choices)@ == (PropertyModel {
            prefix: number.prefix@,
            value: ValueModel::Int(number.data, choices@),
            suffix: number.suffix@,
            property_type: number.property_type,
            event: number.event,
        }),
        PropertyDescriptorWrapper::Bool(switch)@ == (PropertyModel {
            prefix: switch.prefix@,
            value: ValueModel::Bool(switch.data),
            suffix: switch.suffix@,
            property_type: switch.property_type,
            event: switch.event,
        }),
        PropertyDescriptorWrapper::String(text)@.prefix == text.prefix@,
        PropertyDescriptorWrapper::String(text)@.suffix == text.suffix@,
        PropertyDescriptorWrapper::String(text)@.property_type == text.property_type,
        PropertyDescriptorWrapper::String(text)@.event == text.event,
        text.data is None ==> PropertyDescriptorWrapper::String(text)@.value == ValueModel::Text(
            None,
        ),
        text.data matches Some(s) ==> PropertyDescriptorWrapper::String(text)@.value
            == ValueModel::Text(Some(s@)),
        rows(all).len() == all.len(),
        rows(all)[i] == all[i]@,
{
}

/// A headset of which only the identity is known: nothing was reported and nothing
/// can be set.
pub proof fn blank_properties_know_the_identity(
    product_id: u16,
    vendor_id: u16,
    name: Option<String>,
)
    ensures
        ({
            let p = blank_properties(product_id, vendor_id, name);
            &&& p.product_id == product_id
            &&& p.vendor_id == vendor_id
            &&& p.device_name == name
            &&& p.battery_level is None
            &&& p.charging is None
            &&& p.muted is None
            &&& p.mic_connected is None
            &&& p.automatic_shutdown_after is None
            &&& p.pairing_info is None
            &&& p.product_color is None
            &&& p.side_tone_on is None
            &&& p.side_tone_volume is None
            &&& p.surround_sound is None
            &&& p.voice_prompt_on is None
            &&& p.connected is None
            &&& p.silent is None
            &&& p.noise_gate_active is None
            &&& !p.can_set_mute
            &&& !p.can_set_surround_sound
            &&& !p.can_set_side_tone
            &&& !p.can_set_automatic_shutdown
            &&& !p.can_set_side_tone_volume
            &&& !p.can_set_voice_prompt
            &&& !p.can_set_silent_mode
            &&& !p.can_set_equalizer
            &&& !p.can_set_noise_gate
        }),
{
}

/// What a headset reports is shown in the row of that property, and in no other row.
pub proof fn reports_are_shown(p: DeviceProperties, e: DeviceEvent, j: int)
    requires
        0 <= j < 14,
    ensures
        ({
            let before = property_table(p);
            let after = property_table(apply_event(p, e));
            &&& match e {
                DeviceEvent::BatterLevel(v) => (after[1].value matches ValueModel::Int(shown, _) && shown == Some(v)) && (j != 1 ==> after[j] == before[j]),
                DeviceEvent::Muted(v) => after[2].value == ValueModel::Bool(Some(v)) && (j != 2 ==> after[j] == before[j]),
                DeviceEvent::MicConnected(v) => after[3].value == ValueModel::Bool(Some(v)) && (j != 3 ==> after[j] == before[j]),
                DeviceEvent::Charging(v) => (after[0].value matches ValueModel::Text(Some(s)) && s == v.text()) && (j != 0 ==> after[j] == before[j]),
                DeviceEvent::AutomaticShutdownAfter(v) => (after[4].value matches ValueModel::Int(Some(m), _) && (v.secs / 60 - m) % 256 == 0) && (j != 4 ==> after[j] == before[j]),
                DeviceEvent::PairingInfo(v) => (after[5].value matches ValueModel::Int(shown, _) && shown == Some(v)) && (j != 5 ==> after[j] == before[j]),
                DeviceEvent::ProductColor(v) => (after[6].value matches ValueModel::Text(Some(s)) && s == v.text()) && (j != 6 ==> after[j] == before[j]),
                DeviceEvent::SideToneOn(v) => after[7].value == ValueModel::Bool(Some(v)) && (j != 7 ==> after[j] == before[j]),
                DeviceEvent::SideToneVolume(v) => (after[8].value matches ValueModel::Int(shown, _) && shown == Some(v)) && (j != 8 ==> after[j] == before[j]),
                DeviceEvent::VoicePrompt(v) => after[10].value == ValueModel::Bool(Some(v)) && (j != 10 ==> after[j] == before[j]),
                DeviceEvent::WirelessConnected(v) => after[13].value == ValueModel::Bool(Some(v)) && (j != 13 ==> after[j] == before[j]),
                DeviceEvent::SurroundSound(v) => after[9].value == ValueModel::Bool(Some(v)) && (j != 9 ==> after[j] == before[j]),
                DeviceEvent::Silent(v) => after[11].value == ValueModel::Bool(Some(v)) && (j != 11 ==> after[j] == before[j]),
                DeviceEvent::NoiseGateActive(v) => after[12].value == ValueModel::Bool(Some(v)) && (j != 12 ==> after[j] == before[j]),
                DeviceEvent::RequireSIRKReset(_) => after[j] == before[j],
            }
        }),
{
}

/// Properties whose statuses differ look different.
pub proof fn different_reports_look_different(p: DeviceProperties, q: DeviceProperties)
    ensures
        property_table(p)[0].value == property_table(q)[0].value ==> p.charging == q.charging,
        property_table(p)[6].value == property_table(q)[6].value ==> p.product_color
            == q.product_color,
{
    if p.charging is Some && q.charging is Some {
        crate::laws::events::charging_looks_different(p.charging->0, q.charging->0);
    }
    if p.product_color is Some && q.product_color is Some {
        crate::laws::events::colors_look_different(p.product_color->0, q.product_color->0);
    }
}

/// Only a property that this headset does not let be set is marked.
pub proof fn markers_are_worded(t: PropertyType)
    ensures
        t is ReadOnly ==> marker_text(t) == " (read-only)"@,
        !(t is ReadOnly) ==> marker_text(t).len() == 0,
{
    reveal_strlit("");
}

/// A value that is known is listed, one that is not known is not.
pub proof fn known_values_are_listed(value: ValueModel)
    ensures
        value matches ValueModel::Int(None, _) ==> value.text() is None,
        value matches ValueModel::Bool(None) ==> value.text() is None,
        value matches ValueModel::Text(None) ==> value.text() is None,
        value matches ValueModel::Int(Some(n), _) ==> value.text() == Some(decimal(n as nat)),
        value matches ValueModel::Bool(Some(b)) ==> value.text() == Some(
            if b { "true"@ } else { "false"@ },
        ),
        value matches ValueModel::Text(Some(s)) ==> value.text() == Some(s),
{
}

/// A line is the label in its column, a space, the value, its unit and, where asked
/// for, the marker.
pub proof fn lines_hold_label_and_value(
    row: PropertyModel,
    text: Seq<char>,
    padding: nat,
    marked: bool,
)
    ensures
        ({
            let line = row_line(row, text, padding, marked);
            let column = if row.prefix.len() < padding { padding as int } else {
                row.prefix.len() as int
            };
            let unit = column + 1 + text.len();
            let end = unit + row.suffix.len();
            &&& line.len() >= end
            &&& line.take(row.prefix.len() as int) == row.prefix
            &&& forall|i: int| row.prefix.len() <= i <= column ==> #[trigger] line[i] == ' '
            &&& line.subrange(column + 1, unit) == text
            &&& line.subrange(unit, end) == row.suffix
            &&& marked && row.property_type is ReadOnly ==> line.skip(end) == " (read-only)"@
            &&& !(marked && row.property_type is ReadOnly) ==> line.len() == end
        }),
{
    reveal_strlit(" ");
    reveal_strlit("");
    let line = row_line(row, text, padding, marked);
    let column = padded(row.prefix, padding).len() as int;
    let unit = column + 1 + text.len();
    let end = unit + row.suffix.len();
    assert(line.take(row.prefix.len() as int) =~= row.prefix);
    assert(line.subrange(column + 1, unit) =~= text);
    assert(line.subrange(unit, end) =~= row.suffix);
    assert(line.skip(end) =~= if marked { marker_text(row.property_type) } else { Seq::empty() });
}

/// The lines of a table are those of its parts in order: a row whose value is known
/// has its line, and one whose value is not known has none.
pub proof fn lines_follow_the_rows(
    first: Seq<PropertyModel>,
    second: Seq<PropertyModel>,
    row: PropertyModel,
    padding: nat,
    marked: bool,
)
    ensures
        known_lines(first + second, padding, marked) == known_lines(first, padding, marked)
            + known_lines(second, padding, marked),
        row.value.text() is None ==> known_lines(seq![row], padding, marked).len() == 0,
        row.value.text() matches Some(text) ==> known_lines(seq![row], padding, marked) == seq![
            row_line(row, text, padding, marked),
        ],
    decreases second.len(),
{
    assert(seq![row].drop_last() =~= Seq::empty());
    assert(known_lines(seq![row].drop_last(), padding, marked) =~= Seq::empty());
    if second.len() > 0 {
        lines_follow_the_rows(first, second.drop_last(), row, padding, marked);
        assert((first + second).drop_last() =~= first + second.drop_last());
        assert(known_lines(first + second, padding, marked) =~= known_lines(
            first,
            padding,
            marked,
        ) + known_lines(second, padding, marked));
    } else {
        assert(first + second =~= first);
        assert(known_lines(first, padding, marked) + known_lines(second, padding, marked)
            =~= known_lines(first, padding, marked));
    }
}

/// The rows from the first on: each that is known begins on a new line, but for the
/// first of them.
pub open spec fn shown_rows(
    table: Seq<PropertyModel>,
    padding: nat,
    marked: bool,
    begun: bool,
) -> Seq<char>
    decreases table.len(),
{
    if table.len() == 0 {
        Seq::empty()
    } else {
        match table[0].value.text() {
            Some(text) => (if begun { seq!['\n'] } else { Seq::empty() }) + row_line(
                table[0],
                text,
                padding,
                marked,
            ) + shown_rows(table.skip(1), padding, marked, true),
            None => shown_rows(table.skip(1), padding, marked, begun),
        }
    }
}

proof fn rows_are_shown(table: Seq<PropertyModel>, padding: nat, marked: bool, begun: bool)
    ensures
        ({
            let lines = known_lines(table, padding, marked);
            shown_rows(table, padding, marked, begun) == if lines.len() == 0 {
                Seq::empty()
            } else {
                (if begun { "\n"@ } else { Seq::empty() }) + joined(lines, "\n"@)
            }
        }),
    decreases table.len(),
{
    reveal_strlit("\n");
    assert("\n"@ =~= seq!['\n']);
    if table.len() > 0 {
        let row = table[0];
        let rest = table.skip(1);
        let lines = known_lines(table, padding, marked);
        let rest_lines = known_lines(rest, padding, marked);
        assert(table =~= seq![row] + rest);
        lines_follow_the_rows(seq![row], rest, row, padding, marked);
        match row.value.text() {
            Some(text) => {
                let line = row_line(row, text, padding, marked);
                rows_are_shown(rest, padding, marked, true);
                crate::laws::text::joining_is_concatenation(seq![line], rest_lines, "\n"@);
                assert(lines =~= seq![line] + rest_lines);
                if rest_lines.len() == 0 {
                    assert(lines =~= seq![line]);
                    assert(joined(lines, "\n"@) == line);
                }
                assert(shown_rows(table, padding, marked, begun) =~= (if begun {
                    "\n"@
                } else {
                    Seq::empty()
                }) + joined(lines, "\n"@));
            },
            None => {
                rows_are_shown(rest, padding, marked, begun);
                assert(lines =~= rest_lines);
            },
        }
    }
}

/// The listing shows the rows of the table in order, one line for each whose value is
/// known, with nothing before, between or behind them but the line breaks.
pub proof fn listing_shows_the_rows(p: DeviceProperties, padding: nat, marked: bool)
    ensures
        listing(p, padding, marked) == shown_rows(property_table(p), padding, marked, false),
{
    rows_are_shown(property_table(p), padding, marked, false);
    let lines = known_lines(property_table(p), padding, marked);
    assert(listing(p, padding, marked) =~= if lines.len() == 0 {
        Seq::empty()
    } else {
        Seq::empty() + joined(lines, "\n"@)
    });
}

} // verus!
