use minibox::controls::{Stabilizer, CALIBRATION_SAMPLES};

#[test]
fn calibration_constant_positive() {
    let mut st = Stabilizer::new();
    assert!(!st.calibrated);
    let samples = [37i16; CALIBRATION_SAMPLES];
    st.calibrate(&samples);
    assert!(st.calibrated);
    assert_eq!(st.offset, -37);
}

#[test]
fn calibration_constant_negative() {
    let mut st = Stabilizer::new();
    let samples = [-100i16; CALIBRATION_SAMPLES];
    st.calibrate(&samples);
    assert_eq!(st.offset, 100);
}

#[test]
fn calibration_constant_zero() {
    let mut st = Stabilizer::new();
    let samples = [0i16; CALIBRATION_SAMPLES];
    st.calibrate(&samples);
    assert_eq!(st.offset, 0);
}

#[test]
fn calibration_incremental_average_truncates() {
    // Nine zeros then a ten: the last step adds (10 - 0) / 10 = 1,
    // so the offset is -1.
    let samples = [0i16, 0, 0, 0, 0, 0, 0, 0, 0, 10];
    let mut st = Stabilizer::new();
    st.calibrate(&samples);
    assert_eq!(st.offset, -1);
}

#[test]
fn calibration_extreme_samples() {
    let samples = [i16::MIN; CALIBRATION_SAMPLES];
    let mut st = Stabilizer::new();
    st.calibrate(&samples);
    assert_eq!(st.offset, 32768);
}

#[test]
fn sample_applies_offset() {
    let mut st = Stabilizer::new();
    assert_eq!(st.sample(5), 5);
    let samples = [37i16; CALIBRATION_SAMPLES];
    st.calibrate(&samples);
    assert_eq!(st.sample(40), 3);
    assert_eq!(st.sample(-3), -40);
}
