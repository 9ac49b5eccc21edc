use minibox::indications::{
    indication_plan, IndicationPlan, IndicationStyle, BLINK_FAST_INTERVAL_MS,
    BLINK_SLOW_INTERVAL_MS,
};
use minibox::pmic::{
    configure_battery_block, needs_configuration, power_status_code, CHEMISTRY_PROFILE_MV,
};

#[test]
fn indication_plans() {
    assert_eq!(indication_plan(IndicationStyle::Disabled), IndicationPlan::Off);
    assert_eq!(indication_plan(IndicationStyle::PermanentHigh), IndicationPlan::On);
    assert_eq!(
        indication_plan(IndicationStyle::BlinkFast),
        IndicationPlan::Blink(BLINK_FAST_INTERVAL_MS)
    );
    assert_eq!(
        indication_plan(IndicationStyle::BlinkSlow),
        IndicationPlan::Blink(BLINK_SLOW_INTERVAL_MS)
    );
    assert!(BLINK_FAST_INTERVAL_MS < BLINK_SLOW_INTERVAL_MS);
}

#[test]
fn gauge_configuration_trigger() {
    assert!(needs_configuration(true, false));
    assert!(needs_configuration(false, true));
    assert!(!needs_configuration(false, false));
}

#[test]
fn gauge_chemistry_profile() {
    // The 4.2 V profile is selected before the state block is written.
    assert_eq!(CHEMISTRY_PROFILE_MV, 4200);
}

#[test]
fn gauge_block_bytes() {
    let mut raw: Vec<u8> = (0..32).map(|i| 0x40 + i).collect();
    let before = raw.clone();
    configure_battery_block(&mut raw);
    assert_eq!(raw.len(), 32);
    // Design capacity 180 mAh, big endian.
    assert_eq!(&raw[6..8], &[0x00, 180]);
    // Design energy 0x029A (capacity times nominal cell voltage).
    assert_eq!(&raw[8..10], &[0x02, 0x9A]);
    // Taper rate 150.
    assert_eq!(&raw[21..23], &[0x00, 150]);
    // Everything else exactly as read from the chip.
    for i in 0..32 {
        if !(6..10).contains(&i) && !(21..23).contains(&i) {
            assert_eq!(raw[i], before[i]);
        }
    }
}

#[test]
fn power_status_codes() {
    assert_eq!(power_status_code(false), 1);
    assert_eq!(power_status_code(true), 2);
}
