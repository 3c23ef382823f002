//! What holds of the properties of a headset, whatever it reports.
use vstd::prelude::*;
use crate::command::{is_plan, is_setting, CommandPlan};
use crate::events::DeviceEvent;
use crate::listing::{known_lines, listing, marker_text, row_line};
use crate::properties::{
    blank_properties, property_table, DeviceProperties, PropertyEvent, PropertyModel, PropertyType,
    PropertyValue, ValueModel,
};
use crate::state::{
    apply_event, apply_events, capabilities_of, cleared, with_capabilities, Capabilities,
};
use crate::text::padded;

pub mod connect;
pub mod debug;
pub mod discovery;
pub mod events;
pub mod properties;
pub mod refresh;
pub mod state;
pub mod text;
pub mod transport;

verus! {

/// A number for each property that an event can report.
pub open spec fn property_number(event: DeviceEvent) -> int {
    match event {
        DeviceEvent::BatterLevel(_) => 0,
        DeviceEvent::Muted(_) => 1,
        DeviceEvent::MicConnected(_) => 2,
        DeviceEvent::Charging(_) => 3,
        DeviceEvent::AutomaticShutdownAfter(_) => 4,
        DeviceEvent::PairingInfo(_) => 5,
        DeviceEvent::ProductColor(_) => 6,
        DeviceEvent::SideToneOn(_) => 7,
        DeviceEvent::SideToneVolume(_) => 8,
        DeviceEvent::VoicePrompt(_) => 9,
        DeviceEvent::WirelessConnected(_) => 10,
        DeviceEvent::SurroundSound(_) => 11,
        DeviceEvent::Silent(_) => 12,
        DeviceEvent::RequireSIRKReset(_) => 13,
        DeviceEvent::NoiseGateActive(_) => 14,
    }
}

/// Whether two events report the same property.
pub open spec fn same_property(a: DeviceEvent, b: DeviceEvent) -> bool {
    property_number(a) == property_number(b)
}

/// The last report of a property counts.
pub proof fn later_report_replaces_earlier(p: DeviceProperties, a: DeviceEvent, b: DeviceEvent)
    requires
        same_property(a, b),
    ensures
        apply_event(apply_event(p, a), b) == apply_event(p, b),
{
}

/// Reports of different properties may come in either order.
pub proof fn reports_of_different_properties_commute(
    p: DeviceProperties,
    a: DeviceEvent,
    b: DeviceEvent,
)
    requires
        !same_property(a, b),
    ensures
        apply_event(apply_event(p, a), b) == apply_event(apply_event(p, b), a),
{
}

/// No report changes which headset it is or what can be set on it.
pub proof fn reports_keep_identity_and_capabilities(p: DeviceProperties, events: Seq<DeviceEvent>)
    ensures
        apply_events(p, events).product_id == p.product_id,
        apply_events(p, events).vendor_id == p.vendor_id,
        apply_events(p, events).device_name == p.device_name,
        capabilities_of(apply_events(p, events)) == capabilities_of(p),
    decreases events.len(),
{
    if events.len() > 0 {
        reports_keep_identity_and_capabilities(p, events.drop_last());
    }
}

/// Events that are taken up in two batches leave the same state as in one.
pub proof fn batches_of_events_add_up(
    p: DeviceProperties,
    first: Seq<DeviceEvent>,
    second: Seq<DeviceEvent>,
)
    ensures
        apply_events(apply_events(p, first), second) == apply_events(p, first + second),
    decreases second.len(),
{
    if second.len() > 0 {
        batches_of_events_add_up(p, first, second.drop_last());
        assert((first + second).drop_last() =~= first + second.drop_last());
    } else {
        assert(first + second =~= first);
    }
}

/// Taking down the capabilities changes nothing else, and they can be read back.
pub proof fn capabilities_are_kept(p: DeviceProperties, c: Capabilities, i: int)
    requires
        0 <= i < property_table(p).len(),
    ensures
        capabilities_of(with_capabilities(p, c)) == c,
        with_capabilities(with_capabilities(p, c), capabilities_of(p)) == p,
        property_table(with_capabilities(p, c)).len() == property_table(p).len(),
        property_table(with_capabilities(p, c))[i].value == property_table(p)[i].value,
{
}

/// Clearing the state forgets every report, and doing so again changes nothing.
/// Nothing is listed of a headset that has been cleared.
pub proof fn clearing_forgets_reports(
    p: DeviceProperties,
    events: Seq<DeviceEvent>,
    padding: nat,
    marked: bool,
)
    ensures
        cleared(apply_events(p, events)) == cleared(p),
        cleared(cleared(p)) == cleared(p),
        listing(cleared(p), padding, marked) == Seq::<char>::empty(),
{
    reports_keep_identity_and_capabilities(p, events);
    unknown_rows_have_no_lines(property_table(cleared(p)), padding, marked);
}

/// Once the capabilities have been taken down, neither reports nor clearing the
/// state change them, nor do they change which headset it is.
pub proof fn capabilities_survive_clearing(
    p: DeviceProperties,
    c: Capabilities,
    before: Seq<DeviceEvent>,
    after: Seq<DeviceEvent>,
)
    ensures
        ({
            let q = apply_events(cleared(apply_events(with_capabilities(p, c), before)), after);
            &&& capabilities_of(q) == c
            &&& q.product_id == p.product_id
            &&& q.vendor_id == p.vendor_id
            &&& q.device_name == p.device_name
        }),
{
    let started = with_capabilities(p, c);
    reports_keep_identity_and_capabilities(started, before);
    reports_keep_identity_and_capabilities(cleared(apply_events(started, before)), after);
}

/// The capability that says whether events of this kind are accepted.
pub open spec fn capability_for(kind: PropertyEvent, c: Capabilities) -> bool {
    match kind {
        PropertyEvent::NoEvent => false,
        PropertyEvent::Muted => c.mute,
        PropertyEvent::AutomaticShutdownAfter => c.automatic_shutdown,
        PropertyEvent::SideToneOn => c.side_tone,
        PropertyEvent::SideToneVolume => c.side_tone_volume,
        PropertyEvent::SurroundSound => c.surround_sound,
        PropertyEvent::VoicePrompt => c.voice_prompt,
        PropertyEvent::Silent => c.silent_mode,
        PropertyEvent::NoiseGateActive => c.noise_gate,
    }
}

/// A property can be set exactly where the headset has the capability for it.
pub proof fn properties_follow_their_capability(p: DeviceProperties, i: int)
    requires
        0 <= i < property_table(p).len(),
    ensures
        property_table(p)[i].property_type == PropertyType::ReadWrite <==> capability_for(
            property_table(p)[i].event,
            capabilities_of(p),
        ),
        property_table(p)[i].property_type == PropertyType::AlwaysReadOnly <==> property_table(
            p,
        )[i].event == PropertyEvent::NoEvent,
{
}

/// A switch that the headset reports as it was asked for shows the value that
/// was asked for, and no other property changes.
pub proof fn switch_shows_what_was_set(p: DeviceProperties, i: int, value: bool, j: int)
    requires
        0 <= i < property_table(p).len(),
        property_table(p)[i].value is Bool,
        value.event_of(property_table(p)[i].event) is Some,
        0 <= j < property_table(p).len(),
    ensures
        ({
            let event = value.event_of(property_table(p)[i].event)->0;
            let after = property_table(apply_event(p, event));
            &&& after.len() == property_table(p).len()
            &&& after[i].value == ValueModel::Bool(Some(value))
            &&& j != i ==> after[j] == property_table(p)[j]
        }),
{
}

/// A number that the headset reports as it was asked for shows the value that
/// was asked for, and no other property changes. Minutes survive the way
/// through seconds.
pub proof fn number_shows_what_was_set(p: DeviceProperties, i: int, value: u8, j: int)
    requires
        0 <= i < property_table(p).len(),
        property_table(p)[i].value is Int,
        value.event_of(property_table(p)[i].event) is Some,
        0 <= j < property_table(p).len(),
    ensures
        ({
            let event = value.event_of(property_table(p)[i].event)->0;
            let after = property_table(apply_event(p, event));
            &&& after.len() == property_table(p).len()
            &&& (after[i].value matches ValueModel::Int(shown, _) && shown == Some(value))
            &&& j != i ==> after[j] == property_table(p)[j]
        }),
{
}

/// Whether a value can be asked for through this row.
pub open spec fn row_creates_events(row: PropertyModel) -> bool {
    match row.value {
        ValueModel::Int(_, _) => forall|v: u8| (#[trigger] v.event_of(row.event)) is Some,
        ValueModel::Bool(_) => forall|v: bool| (#[trigger] v.event_of(row.event)) is Some,
        ValueModel::Text(_) => false,
    }
}

/// Whether no value can be asked for through this row.
pub open spec fn row_creates_no_events(row: PropertyModel) -> bool {
    match row.value {
        ValueModel::Int(_, _) => forall|v: u8| (#[trigger] v.event_of(row.event)) is None,
        ValueModel::Bool(_) => forall|v: bool| (#[trigger] v.event_of(row.event)) is None,
        ValueModel::Text(_) => true,
    }
}

/// A property that is always read-only yields no event for any value; every
/// other yields one for each value. A number that can be asked for offers choices.
pub proof fn only_settable_properties_create_events(p: DeviceProperties, i: int)
    requires
        0 <= i < property_table(p).len(),
    ensures
        property_table(p)[i].property_type == PropertyType::AlwaysReadOnly ==> row_creates_no_events(
            property_table(p)[i],
        ),
        property_table(p)[i].property_type != PropertyType::AlwaysReadOnly ==> row_creates_events(
            property_table(p)[i],
        ),
        property_table(p)[i].value matches ValueModel::Int(_, choices) ==> (choices.len() > 0
            <==> property_table(p)[i].property_type != PropertyType::AlwaysReadOnly),
{
}

proof fn unknown_rows_have_no_lines(table: Seq<PropertyModel>, padding: nat, marked: bool)
    requires
        forall|i: int| 0 <= i < table.len() ==> (#[trigger] table[i]).value.text() is None,
    ensures
        known_lines(table, padding, marked) == Seq::<Seq<char>>::empty(),
    decreases table.len(),
{
    if table.len() > 0 {
        let front = table.drop_last();
        assert forall|i: int| 0 <= i < front.len() implies (#[trigger] front[i]).value.text() is None by {
            assert(front[i] == table[i]);
        }
        unknown_rows_have_no_lines(front, padding, marked);
        assert(table[table.len() - 1].value.text() is None);
    }
}

/// Nothing is listed of a headset that has reported nothing.
pub proof fn blank_listing_is_empty(
    product_id: u16,
    vendor_id: u16,
    device_name: Option<String>,
    padding: nat,
    marked: bool,
)
    ensures
        listing(blank_properties(product_id, vendor_id, device_name), padding, marked) == Seq::<
            char,
        >::empty(),
{
    let table = property_table(blank_properties(product_id, vendor_id, device_name));
    unknown_rows_have_no_lines(table, padding, marked);
}

/// How many of the rows have a known value.
pub open spec fn known_count(table: Seq<PropertyModel>) -> nat
    decreases table.len(),
{
    if table.len() == 0 {
        0
    } else {
        known_count(table.drop_last()) + if table.last().value.text() is Some { 1nat } else { 0nat }
    }
}

/// Every known value has one line.
pub proof fn every_known_value_has_a_line(table: Seq<PropertyModel>, padding: nat, marked: bool)
    ensures
        known_lines(table, padding, marked).len() == known_count(table),
    decreases table.len(),
{
    if table.len() > 0 {
        every_known_value_has_a_line(table.drop_last(), padding, marked);
    }
}

proof fn unmarked_rows_have_equal_lines(table: Seq<PropertyModel>, padding: nat)
    requires
        forall|i: int|
            0 <= i < table.len() && (#[trigger] table[i]).value.text() is Some
                ==> table[i].property_type != PropertyType::ReadOnly,
    ensures
        known_lines(table, padding, true) == known_lines(table, padding, false),
    decreases table.len(),
{
    if table.len() > 0 {
        let front = table.drop_last();
        assert forall|i: int|
            0 <= i < front.len() && (#[trigger] front[i]).value.text() is Some implies front[i].property_type
            != PropertyType::ReadOnly by {
            assert(front[i] == table[i]);
        }
        unmarked_rows_have_equal_lines(front, padding);
        let last = table[table.len() - 1];
        if last.value.text() is Some {
            reveal_strlit("");
            assert(row_line(last, last.value.text()->0, padding, true) =~= row_line(
                last,
                last.value.text()->0,
                padding,
                false,
            ));
        }
    }
}

/// The two listings are the same where no known property is read-only on this headset.
pub proof fn listings_agree_without_markers(p: DeviceProperties, padding: nat)
    requires
        forall|i: int|
            0 <= i < property_table(p).len() && (#[trigger] property_table(p)[i]).value.text() is Some
                ==> property_table(p)[i].property_type != PropertyType::ReadOnly,
    ensures
        listing(p, padding, true) == listing(p, padding, false),
{
    unmarked_rows_have_equal_lines(property_table(p), padding);
}

/// The marker is all that the marked line of a row has beyond the plain one.
pub proof fn marked_line_extends_plain_line(row: PropertyModel, text: Seq<char>, padding: nat)
    ensures
        row_line(row, text, padding, true) == row_line(row, text, padding, false) + marker_text(
            row.property_type,
        ),
{
}

/// From a padding of 25 characters on, all values of a listing stand in one column.
pub proof fn values_are_aligned(p: DeviceProperties, i: int, padding: nat)
    requires
        0 <= i < property_table(p).len(),
        padding >= 25,
    ensures
        padded(property_table(p)[i].prefix, padding).len() == padding,
{
    reveal_strlit("Charging status:");
    reveal_strlit("Battery level:");
    reveal_strlit("Muted:");
    reveal_strlit("Mic connected:");
    reveal_strlit("Automatic shutdown after:");
    reveal_strlit("Pairing info:");
    reveal_strlit("Product color:");
    reveal_strlit("Side tone:");
    reveal_strlit("Side tone volume:");
    reveal_strlit("Surround sound:");
    reveal_strlit("Voice prompt:");
    reveal_strlit("Playback muted:");
    reveal_strlit("Noise gate active:");
    reveal_strlit("Connected:");
}

/// What a property asks for is always a setting, so it is either sent to the
/// headset or refused with a message, never ignored.
pub proof fn properties_ask_for_settings(
    kind: PropertyEvent,
    switch: bool,
    number: u8,
    packet: Option<Vec<u8>>,
    plan: CommandPlan,
)
    ensures
        switch.event_of(kind) matches Some(command) ==> is_setting(command) && (is_plan(
            command,
            packet,
            plan,
        ) ==> !(plan is Nothing)),
        number.event_of(kind) matches Some(command) ==> is_setting(command) && (is_plan(
            command,
            packet,
            plan,
        ) ==> !(plan is Nothing)),
{
}

} // verus!
