//! What holds of spans of time, of colors and of the charging status.
use vstd::prelude::*;
use crate::duration::Duration;
use crate::events::{ChargingStatus, Color};
use crate::text::decimal;

verus! {

/// A second is a thousand million nanoseconds, and a rest is less than that. Spans
/// that are as long are the same, and the milliseconds are those that are full.
pub proof fn spans_are_measured(a: Duration, b: Duration)
    ensures
        a.wf() <==> a.nanos < 1_000_000_000,
        a.total_nanos() - b.total_nanos() == (a.secs - b.secs) * 1_000_000_000 + (a.nanos
            - b.nanos),
        a.secs == 0 && a.nanos == 0 ==> a.total_nanos() == 0,
        a.whole_millis() * 1_000_000 <= a.total_nanos() < (a.whole_millis() + 1) * 1_000_000,
        a.wf() && b.wf() && a.total_nanos() == b.total_nanos() ==> a == b,
{
    assert(a.secs * 1_000_000_000 - b.secs * 1_000_000_000 == (a.secs - b.secs) * 1_000_000_000)
        by (nonlinear_arith);
}

/// The codes 0, 1 and 2 are black, white and red; every other code is kept as it is.
pub proof fn color_codes_are_known(code: u8)
    ensures
        code == 0 <==> Color::of_code(code) == Color::BlackBlack,
        code == 1 <==> Color::of_code(code) == Color::WhiteWhite,
        code == 2 <==> Color::of_code(code) == Color::BlackRed,
        code > 2 ==> Color::of_code(code) == Color::UnknownColor(code),
        <Color as vstd::std_specs::convert::FromSpec<u8>>::from_spec(code) == Color::of_code(code),
        <Color as vstd::std_specs::convert::FromSpec<u8>>::obeys_from_spec(),
{
}

/// The codes 0, 1 and 2 are not charging, charging and fully charged; every other
/// code is an error.
pub proof fn charging_codes_are_known(code: u8)
    ensures
        code == 0 <==> ChargingStatus::of_code(code) == ChargingStatus::NotCharging,
        code == 1 <==> ChargingStatus::of_code(code) == ChargingStatus::Charging,
        code == 2 <==> ChargingStatus::of_code(code) == ChargingStatus::FullyCharged,
        code > 2 <==> ChargingStatus::of_code(code) == ChargingStatus::ChargeError,
        <ChargingStatus as vstd::std_specs::convert::FromSpec<u8>>::from_spec(code)
            == ChargingStatus::of_code(code),
        <ChargingStatus as vstd::std_specs::convert::FromSpec<u8>>::obeys_from_spec(),
{
}

/// Each color has its name, and an unknown one shows its code.
pub proof fn colors_are_named(c: Color)
    ensures
        c is BlackBlack ==> c.text() == "Black"@,
        c is WhiteWhite ==> c.text() == "White"@,
        c is BlackRed ==> c.text() == "Red"@,
        c matches Color::UnknownColor(n) ==> c.text() == "Unknown color "@ + decimal(n as nat),
{
}

/// Colors that look the same are the same.
pub proof fn colors_look_different(a: Color, b: Color)
    ensures
        a.text() == b.text() ==> a == b,
{
    reveal_strlit("Black");
    reveal_strlit("White");
    reveal_strlit("Red");
    reveal_strlit("Unknown color ");
    assert("Black"@.len() == 5 && "Black"@[0] == 'B');
    assert("White"@.len() == 5 && "White"@[0] == 'W');
    assert("Red"@.len() == 3);
    assert("Unknown color "@.len() == 14);
    if a is UnknownColor && b is UnknownColor && a.text() == b.text() {
        let n = "Unknown color "@.len() as int;
        assert(a.text().skip(n) =~= decimal(a->UnknownColor_0 as nat));
        assert(b.text().skip(n) =~= decimal(b->UnknownColor_0 as nat));
        crate::laws::text::decimals_are_distinct(
            a->UnknownColor_0 as nat,
            b->UnknownColor_0 as nat,
        );
    }
}

/// Each status has its own wording.
pub proof fn charging_is_worded(s: ChargingStatus)
    ensures
        s is NotCharging ==> s.text() == "Not charging"@,
        s is Charging ==> s.text() == "Charging"@,
        s is FullyCharged ==> s.text() == "Fully charged"@,
        s is ChargeError ==> s.text() == "Charging error!"@,
{
}

/// Statuses that look the same are the same.
pub proof fn charging_looks_different(a: ChargingStatus, b: ChargingStatus)
    ensures
        a.text() == b.text() ==> a == b,
{
    reveal_strlit("Not charging");
    reveal_strlit("Charging");
    reveal_strlit("Fully charged");
    reveal_strlit("Charging error!");
    assert("Not charging"@.len() == 12);
    assert("Charging"@.len() == 8);
    assert("Fully charged"@.len() == 13);
    assert("Charging error!"@.len() == 15);
}

} // verus!
