//! What a headset reports about itself.
use vstd::prelude::*;
use vstd::string::*;
use crate::duration::Duration;
use crate::text::decimal_string;

verus! {

#[derive(Copy, Clone)]
pub enum DeviceEvent {
    BatterLevel(u8),
    Muted(bool),
    MicConnected(bool),
    Charging(ChargingStatus),
    AutomaticShutdownAfter(Duration),
    PairingInfo(u8),
    ProductColor(Color),
    SideToneOn(bool),
    SideToneVolume(u8),
    VoicePrompt(bool),
    WirelessConnected(bool),
    SurroundSound(bool),
    Silent(bool),
    RequireSIRKReset(bool),
    NoiseGateActive(bool),
}

#[derive(Debug, Copy, Clone, PartialEq, Eq, Structural)]
pub enum Color {
    BlackBlack,
    WhiteWhite,
    BlackRed,
    UnknownColor(u8),
}

#[derive(Debug, Copy, Clone, PartialEq, Eq, Structural)]
pub enum ChargingStatus {
    NotCharging,
    Charging,
    FullyCharged,
    ChargeError,
}

impl Color {
    /// The color that a headset reports with the code `color`.
    pub open spec fn of_code(color: u8) -> Color {
        if color == 0 {
            Color::BlackBlack
        } else if color == 1 {
            Color::WhiteWhite
        } else if color == 2 {
            Color::BlackRed
        } else {
            Color::UnknownColor(color)
        }
    }

    pub open spec fn text(self) -> Seq<char> {
        match self {
            Color::BlackBlack => "Black"@,
            Color::WhiteWhite => "White"@,
            Color::BlackRed => "Red"@,
            Color::UnknownColor(n) => "Unknown color "@ + crate::text::decimal(n as nat),
        }
    }

    pub fn to_string(&self) -> (s: String)
        ensures
            s@ == self.text(),
    {
        match self {
            Color::BlackBlack => String::from_str("Black"),
            Color::WhiteWhite => String::from_str("White"),
            Color::BlackRed => String::from_str("Red"),
            Color::UnknownColor(n) => {
                let mut s = String::from_str("Unknown color ");
                s.append(decimal_string(*n as u64).as_str());
                s
            },
        }
    }
}

impl From<u8> for Color {
    fn from(color: u8) -> (c: Self) {
        match color {
            0 => Color::BlackBlack,
            1 => Color::WhiteWhite,
            2 => Color::BlackRed,
            _ => Color::UnknownColor(color),
        }
    }
}

impl vstd::std_specs::convert::FromSpecImpl<u8> for Color {
    open spec fn obeys_from_spec() -> bool {
        true
    }

    open spec fn from_spec(color: u8) -> Self {
        Color::of_code(color)
    }
}

impl ChargingStatus {
    /// The status that a headset reports with the code `value`.
    pub open spec fn of_code(value: u8) -> ChargingStatus {
        if value == 0 {
            ChargingStatus::NotCharging
        } else if value == 1 {
            ChargingStatus::Charging
        } else if value == 2 {
            ChargingStatus::FullyCharged
        } else {
            ChargingStatus::ChargeError
        }
    }

    pub open spec fn text(self) -> Seq<char> {
        match self {
            ChargingStatus::NotCharging => "Not charging"@,
            ChargingStatus::Charging => "Charging"@,
            ChargingStatus::FullyCharged => "Fully charged"@,
            ChargingStatus::ChargeError => "Charging error!"@,
        }
    }

    pub fn to_string(&self) -> (s: String)
        ensures
            s@ == self.text(),
    {
        match self {
            ChargingStatus::NotCharging => String::from_str("Not charging"),
            ChargingStatus::Charging => String::from_str("Charging"),
            ChargingStatus::FullyCharged => String::from_str("Fully charged"),
            ChargingStatus::ChargeError => String::from_str("Charging error!"),
        }
    }
}

impl From<u8> for ChargingStatus {
    fn from(value: u8) -> (s: ChargingStatus) {
        match value {
            0 => ChargingStatus::NotCharging,
            1 => ChargingStatus::Charging,
            2 => ChargingStatus::FullyCharged,
            _ => ChargingStatus::ChargeError,
        }
    }
}

impl vstd::std_specs::convert::FromSpecImpl<u8> for ChargingStatus {
    open spec fn obeys_from_spec() -> bool {
        true
    }

    open spec fn from_spec(value: u8) -> Self {
        ChargingStatus::of_code(value)
    }
}

/// Different color codes stand for different colors.
pub proof fn color_codes_are_distinct(a: u8, b: u8)
    ensures
        Color::of_code(a) == Color::of_code(b) ==> a == b,
{
}

} // verus!
