//! Status-indicator requests. The indicator task itself (an outside
//! collaborator driving the light) consumes a style from its own
//! mailbox; this module fixes the styles and what pattern each one asks
//! for.

use vstd::prelude::*;

verus! {

/// Blink period of the fast pattern, in milliseconds.
pub const BLINK_FAST_INTERVAL_MS: u64 = 100;
/// Blink period of the slow pattern, in milliseconds.
pub const BLINK_SLOW_INTERVAL_MS: u64 = 1000;

/// A requested indicator style, published by status-producing tasks.
#[derive(Clone, Copy, PartialEq, Eq, Structural, Debug)]
pub enum IndicationStyle {
    /// Indicator off.
    Disabled,
    /// Fast blinking.
    BlinkFast,
    /// Slow blinking.
    BlinkSlow,
    /// Steady on.
    PermanentHigh,
}

/// The light pattern a style resolves to.
#[derive(Clone, Copy, PartialEq, Eq, Structural, Debug)]
pub enum IndicationPlan {
    /// Drive the indicator low and wait for the next style.
    Off,
    /// Drive the indicator high and wait for the next style.
    On,
    /// Pulse the indicator on the given period in milliseconds.
    Blink(u64),
}

/// The pattern each style asks the indicator task to run.
pub open spec fn spec_indication_plan(style: IndicationStyle) -> IndicationPlan {
    match style {
        IndicationStyle::Disabled => IndicationPlan::Off,
        IndicationStyle::BlinkFast => IndicationPlan::Blink(BLINK_FAST_INTERVAL_MS),
        IndicationStyle::BlinkSlow => IndicationPlan::Blink(BLINK_SLOW_INTERVAL_MS),
        IndicationStyle::PermanentHigh => IndicationPlan::On,
    }
}

/// Resolve a style to its light pattern.
pub fn indication_plan(style: IndicationStyle) -> (p: IndicationPlan)
    ensures
        p == spec_indication_plan(style),
{
    match style {
        IndicationStyle::Disabled => IndicationPlan::Off,
        IndicationStyle::BlinkFast => IndicationPlan::Blink(BLINK_FAST_INTERVAL_MS),
        IndicationStyle::BlinkSlow => IndicationPlan::Blink(BLINK_SLOW_INTERVAL_MS),
        IndicationStyle::PermanentHigh => IndicationPlan::On,
    }
}

} // verus!
