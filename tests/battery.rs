use sysmon::battery::{last_reading, state_label, BatteryCache, BatteryReading, ChargeState};
use sysmon::panels::battery_fields;

#[test]
fn cache_reuses_within_ttl() {
    let mut c = BatteryCache::new();
    assert!(c.is_due(0));
    let first = BatteryReading { charge_bps: 8000, state: ChargeState::Charging };
    c.store(10, Some(first));
    assert!(!c.is_due(10));
    assert_eq!(c.reading, Some(first));
    assert!(!c.is_due(200));
    assert_eq!(c.reading, Some(first));
    assert!(!c.is_due(409));
    assert!(c.is_due(410));
    let second = BatteryReading { charge_bps: 7900, state: ChargeState::Discharging };
    c.store(410, Some(second));
    assert_eq!(c.reading, Some(second));
    assert!(!c.is_due(809));
    assert!(c.is_due(810));
}

#[test]
fn labels() {
    assert_eq!(state_label(ChargeState::Charging), "Charging");
    assert_eq!(state_label(ChargeState::Discharging), "Discharging");
    assert_eq!(state_label(ChargeState::Full), "Full");
    assert_eq!(state_label(ChargeState::Empty), "Empty");
    assert_eq!(state_label(ChargeState::Unknown), "Unknown");
}

#[test]
fn last_battery_wins() {
    let a = BatteryReading { charge_bps: 1000, state: ChargeState::Empty };
    let b = BatteryReading { charge_bps: 10000, state: ChargeState::Full };
    assert_eq!(last_reading(&vec![a, b]), Some(b));
    assert_eq!(last_reading(&vec![]), None);
}

#[test]
fn battery_panel_fields() {
    let b = BatteryReading { charge_bps: 5025, state: ChargeState::Discharging };
    assert_eq!(battery_fields(Some(b)), ("50.25%".to_string(), "Discharging".to_string()));
    assert_eq!(battery_fields(None), ("n/a".to_string(), "n/a".to_string()));
}
