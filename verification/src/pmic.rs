//! Battery-gauge decisions. The fuel-gauge chip itself is polled by an
//! outside collaborator over its register/memory-block protocol; this
//! module holds the pure parts: the configuration written into the
//! gauge's state memory block after a chip reset, and the status code
//! published toward the indicator.

use vstd::prelude::*;

verus! {

/// Byte offset of the design-capacity field in the state block.
pub const STATE_DESIGN_CAPACITY_OFF: usize = 6;
/// Byte offset of the design-energy field in the state block.
pub const STATE_DESIGN_ENERGY_OFF: usize = 8;
/// Byte offset of the taper-rate field in the state block.
pub const STATE_TAPER_RATE_OFF: usize = 21;

/// The chemistry profile selected at configuration time, named by its
/// charge voltage in millivolts: the 4.2 V profile matching the
/// attached cell. Written to the gauge before the state block.
pub const CHEMISTRY_PROFILE_MV: u16 = 4200;
/// Design capacity written to the gauge, in mAh.
pub const DESIGN_CAPACITY_MAH: u8 = 180;
/// Design energy written to the gauge (capacity times nominal cell
/// voltage), big-endian high byte.
pub const DESIGN_ENERGY_HI: u8 = 0x02;
/// Design energy low byte.
pub const DESIGN_ENERGY_LO: u8 = 0x9a;
/// Taper rate written to the gauge.
pub const TAPER_RATE: u8 = 150;

/// Whether the gauge must be (re)configured: after a power-on reset of
/// the chip, or when configuration is forced.
pub fn needs_configuration(itpor: bool, force: bool) -> (r: bool)
    ensures
        r == (itpor || force),
{
    itpor || force
}

/// Fill the battery parameters into a copy of the gauge's state memory
/// block: design capacity, design energy and taper rate, each a
/// big-endian 16-bit field. Every other byte is left as read from the
/// chip.
pub fn configure_battery_block(raw: &mut Vec<u8>)
    requires
        old(raw)@.len() >= 23,
    ensures
        final(raw)@.len() == old(raw)@.len(),
        final(raw)@[STATE_DESIGN_CAPACITY_OFF as int] == 0x00,
        final(raw)@[STATE_DESIGN_CAPACITY_OFF + 1] == DESIGN_CAPACITY_MAH,
        final(raw)@[STATE_DESIGN_ENERGY_OFF as int] == DESIGN_ENERGY_HI,
        final(raw)@[STATE_DESIGN_ENERGY_OFF + 1] == DESIGN_ENERGY_LO,
        final(raw)@[STATE_TAPER_RATE_OFF as int] == 0x00,
        final(raw)@[STATE_TAPER_RATE_OFF + 1] == TAPER_RATE,
        forall|j: int|
            0 <= j < old(raw)@.len() && j != 6 && j != 7 && j != 8 && j != 9 && j != 21 && j != 22
                ==> final(raw)@[j] == old(raw)@[j],
{
    raw[STATE_DESIGN_CAPACITY_OFF] = 0x00;
    raw[STATE_DESIGN_CAPACITY_OFF + 1] = DESIGN_CAPACITY_MAH;
    raw[STATE_DESIGN_ENERGY_OFF] = DESIGN_ENERGY_HI;
    raw[STATE_DESIGN_ENERGY_OFF + 1] = DESIGN_ENERGY_LO;
    raw[STATE_TAPER_RATE_OFF] = 0x00;
    raw[STATE_TAPER_RATE_OFF + 1] = TAPER_RATE;
}

/// The status code a gauge poll publishes toward the indicator: the
/// low-charge code once the first state-of-charge threshold is reached,
/// the nominal code otherwise.
pub fn power_status_code(soc_threshold_1: bool) -> (code: u8)
    ensures
        code == if soc_threshold_1 { 2u8 } else { 1u8 },
{
    if soc_threshold_1 {
        2
    } else {
        1
    }
}

} // verus!
