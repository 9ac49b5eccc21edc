//! Control core for a small radio-controlled vehicle: advertisement
//! classification, HID report decoding, single-slot mailboxes, motor
//! mixing with a failsafe watchdog, gyro calibration, and the wireless
//! link state machine.

pub mod ble;
pub mod controls;
pub mod indications;
pub mod mailbox;
pub mod pmic;
pub mod xbox;
