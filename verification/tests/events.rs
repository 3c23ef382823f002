use hyper_headset::events::{ChargingStatus, Color};

#[test]
fn color_codes() {
    assert_eq!(Color::from(0), Color::BlackBlack);
    assert_eq!(Color::from(1), Color::WhiteWhite);
    assert_eq!(Color::from(2), Color::BlackRed);
    assert_eq!(Color::from(3), Color::UnknownColor(3));
    assert_eq!(Color::from(255), Color::UnknownColor(255));
}

#[test]
fn color_names() {
    assert_eq!(Color::BlackBlack.to_string(), "Black");
    assert_eq!(Color::WhiteWhite.to_string(), "White");
    assert_eq!(Color::BlackRed.to_string(), "Red");
    assert_eq!(Color::UnknownColor(7).to_string(), "Unknown color 7");
    assert_eq!(Color::UnknownColor(205).to_string(), "Unknown color 205");
}

#[test]
fn charging_codes() {
    assert_eq!(ChargingStatus::from(0), ChargingStatus::NotCharging);
    assert_eq!(ChargingStatus::from(1), ChargingStatus::Charging);
    assert_eq!(ChargingStatus::from(2), ChargingStatus::FullyCharged);
    assert_eq!(ChargingStatus::from(3), ChargingStatus::ChargeError);
    assert_eq!(ChargingStatus::from(255), ChargingStatus::ChargeError);
}

#[test]
fn charging_names() {
    assert_eq!(ChargingStatus::NotCharging.to_string(), "Not charging");
    assert_eq!(ChargingStatus::Charging.to_string(), "Charging");
    assert_eq!(ChargingStatus::FullyCharged.to_string(), "Fully charged");
    assert_eq!(ChargingStatus::ChargeError.to_string(), "Charging error!");
}
