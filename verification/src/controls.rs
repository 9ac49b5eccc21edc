//! The actuation side of the control pipeline: the motor mixer, the
//! failsafe step that the watchdog consumer runs, and the gyro
//! stabilizer's zero-point calibration.

use vstd::prelude::*;
use crate::xbox::JoystickData;

verus! {

/// Full-scale duty cycle: every channel is bounded to `[0, MAX_DUTY]`.
pub const MAX_DUTY: u16 = 1024;
/// Throttle values below this are forced to zero.
pub const THROTTLE_DEADZONE: u16 = 80;
/// Rudder magnitudes below this are forced to zero.
pub const RUDDER_DEADZONE: u16 = 100;
/// Mixing authority divisor: rudder contributes a quarter of its value.
pub const RUDDER_SCALE: u16 = 4;
/// The failsafe watchdog disarms after this long without a sample.
pub const INCOMING_TIMEOUT_MS: u64 = 1000;

/// An input axis scaled to the duty range and inverted for polarity:
/// `MAX_DUTY - (v >> 5)`, in `[-1023, 1024]`.
pub open spec fn axis_scaled(v: u16) -> int {
    MAX_DUTY - (v >> 5)
}

/// The throttle after its deadzone: zero when the scaled axis is below
/// the threshold, the scaled axis otherwise.
pub open spec fn spec_throttle(v: u16) -> int {
    if axis_scaled(v) < THROTTLE_DEADZONE {
        0
    } else {
        axis_scaled(v)
    }
}

/// The signed rudder after scaling, polarity inversion and deadzone,
/// in `[-1023, 1024]`.
pub open spec fn spec_rudder(v: u16) -> int {
    let r = axis_scaled(v);
    if -(RUDDER_DEADZONE as int) < r < RUDDER_DEADZONE {
        0
    } else {
        r
    }
}

/// Division truncating toward zero, as the hardware integer division
/// behaves on a signed dividend.
pub open spec fn div_trunc(a: int, b: int) -> int {
    if a >= 0 {
        a / b
    } else {
        -((-a) / b)
    }
}

/// Clamp a mixed value to the duty range `[0, MAX_DUTY]`.
pub open spec fn clamp_duty(a: int) -> int {
    if a < 0 {
        0
    } else if a > MAX_DUTY {
        MAX_DUTY as int
    } else {
        a
    }
}

/// The left rotor's drive: throttle minus a quarter of the rudder,
/// clamped to the duty range.
pub open spec fn spec_left(throttle_axis: u16, rudder_axis: u16) -> int {
    clamp_duty(
        spec_throttle(throttle_axis) - div_trunc(spec_rudder(rudder_axis), RUDDER_SCALE as int),
    )
}

/// The right rotor's drive: throttle plus a quarter of the rudder,
/// clamped to the duty range.
pub open spec fn spec_right(throttle_axis: u16, rudder_axis: u16) -> int {
    clamp_duty(
        spec_throttle(throttle_axis) + div_trunc(spec_rudder(rudder_axis), RUDDER_SCALE as int),
    )
}

/// The tail channel's duty: the scaled axis itself while positive
/// (forward), otherwise `MAX_DUTY` minus the magnitude (reverse).
pub open spec fn spec_tail_duty(v: u16) -> int {
    if axis_scaled(v) > 0 {
        axis_scaled(v)
    } else {
        MAX_DUTY + axis_scaled(v)
    }
}

/// The tail direction output: forward exactly while the scaled axis is
/// positive.
pub open spec fn spec_tail_forward(v: u16) -> bool {
    axis_scaled(v) > 0
}

/// One duty-cycle value per actuator channel, plus the tail direction.
/// The two rotor channels are magnitude-only; the tail channel carries a
/// magnitude and a direction, an asymmetry the peripheral requires.
#[derive(Clone, Copy, PartialEq, Eq, Structural, Debug)]
pub struct MixerOutput {
    /// Left rotor drive, `[0, MAX_DUTY]`.
    pub left: u16,
    /// Right rotor drive, `[0, MAX_DUTY]`.
    pub right: u16,
    /// Tail channel duty, `[0, MAX_DUTY]`.
    pub tail_duty: u16,
    /// Tail direction: forward when set.
    pub tail_forward: bool,
}

/// Every channel within the duty range.
pub open spec fn output_wf(o: MixerOutput) -> bool {
    o.left <= MAX_DUTY && o.right <= MAX_DUTY && o.tail_duty <= MAX_DUTY
}

/// The disarmed output: no drive on either rotor and the tail at its
/// rest position, exactly what a neutral input mixes to.
pub open spec fn safe_output() -> MixerOutput {
    MixerOutput { left: 0, right: 0, tail_duty: MAX_DUTY, tail_forward: false }
}

/// What an input sample mixes to: rudder from the second stick's x axis,
/// throttle from the first stick's y axis, tail from the second stick's
/// y axis.
pub open spec fn spec_mix(data: JoystickData) -> MixerOutput {
    MixerOutput {
        left: spec_left(data.j1.1, data.j2.0) as u16,
        right: spec_right(data.j1.1, data.j2.0) as u16,
        tail_duty: spec_tail_duty(data.j2.1) as u16,
        tail_forward: spec_tail_forward(data.j2.1),
    }
}

/// A 16-bit axis shifted down five bits fits in eleven.
pub proof fn lemma_shr5_bound(v: u16)
    ensures
        v >> 5 <= 2047,
{
    assert(v >> 5 <= 2047) by (bit_vector);
}

/// The scaled axis stays in `[-1023, 1024]`.
pub proof fn lemma_axis_scaled_range(v: u16)
    ensures
        -1023 <= axis_scaled(v) <= 1024,
{
    lemma_shr5_bound(v);
}

/// The motor mixer: a pure, stateless-per-call transform from the latest
/// input sample to the commanded actuator outputs, which it holds until
/// the next update or disarm.
pub struct Mixer {
    /// The currently commanded outputs.
    pub out: MixerOutput,
}

impl Mixer {
    /// A mixer starts disarmed.
    pub fn new() -> (m: Mixer)
        ensures
            m.out == safe_output(),
    {
        let out = MixerOutput { left: 0, right: 0, tail_duty: MAX_DUTY, tail_forward: false };
        Mixer { out }
    }

    /// Recompute every channel from an input sample: scale and invert the
    /// axes, apply the deadzones, mix throttle with the scaled rudder,
    /// clamp, and derive the tail duty and direction.
    pub fn update(&mut self, data: &JoystickData)
        ensures
            final(self).out == spec_mix(*data),
    {
        let ts: u16 = data.j1.1 >> 5;
        let rs: u16 = data.j2.0 >> 5;
        let zs: u16 = data.j2.1 >> 5;
        proof {
            lemma_shr5_bound(data.j1.1);
            lemma_shr5_bound(data.j2.0);
            lemma_shr5_bound(data.j2.1);
        }

        let throttle: u16 = if ts > MAX_DUTY - THROTTLE_DEADZONE {
            0
        } else {
            MAX_DUTY - ts
        };
        assert(throttle == spec_throttle(data.j1.1));

        let rud_neg: bool = rs > MAX_DUTY;
        let mut rud_mag: u16 = if rs > MAX_DUTY {
            rs - MAX_DUTY
        } else {
            MAX_DUTY - rs
        };
        if rud_mag < RUDDER_DEADZONE {
            rud_mag = 0;
        }
        let ghost rud: int = spec_rudder(data.j2.0);
        assert(rud == if rud_neg {
            -(rud_mag as int)
        } else {
            rud_mag as int
        });

        let q: u16 = rud_mag / RUDDER_SCALE;
        assert(div_trunc(rud, RUDDER_SCALE as int) == if rud_neg {
            -(q as int)
        } else {
            q as int
        });

        let left: u16 = if rud_neg {
            if throttle + q > MAX_DUTY {
                MAX_DUTY
            } else {
                throttle + q
            }
        } else {
            if throttle >= q {
                throttle - q
            } else {
                0
            }
        };
        let right: u16 = if rud_neg {
            if throttle >= q {
                throttle - q
            } else {
                0
            }
        } else {
            if throttle + q > MAX_DUTY {
                MAX_DUTY
            } else {
                throttle + q
            }
        };
        assert(left == spec_left(data.j1.1, data.j2.0));
        assert(right == spec_right(data.j1.1, data.j2.0));

        let tail_forward: bool = zs < MAX_DUTY;
        let tail_duty: u16 = if zs < MAX_DUTY {
            MAX_DUTY - zs
        } else {
            MAX_DUTY - (zs - MAX_DUTY)
        };

        self.out = MixerOutput { left, right, tail_duty, tail_forward };
    }

    /// Kill the motors: drive every channel to the disarmed state.
    pub fn disarm(&mut self)
        ensures
            final(self).out == safe_output(),
    {
        self.out = MixerOutput { left: 0, right: 0, tail_duty: MAX_DUTY, tail_forward: false };
    }
}

/// What one iteration of the watchdog consumer commands: the mix of a
/// fresh sample, or the safe state on a timeout.
pub open spec fn spec_handle_controls(out: MixerOutput, incoming: Option<JoystickData>) -> MixerOutput {
    match incoming {
        Some(data) => spec_mix(data),
        None => safe_output(),
    }
}

/// One iteration of the watchdog consumer: a fresh sample is mixed and
/// committed; a timeout (no sample within the bound) disarms instead.
pub fn handle_controls(mixer: &mut Mixer, incoming: Option<JoystickData>)
    ensures
        final(mixer).out == spec_handle_controls(old(mixer).out, incoming),
        incoming matches Some(data) ==> final(mixer).out == spec_mix(data),
        incoming is None ==> final(mixer).out == safe_output(),
{
    match incoming {
        Some(data) => mixer.update(&data),
        None => mixer.disarm(),
    }
}

/// Repeated timeouts are idempotent: the safe state is driven once and
/// further timeouts leave it exactly as it is.
pub proof fn lemma_disarm_idempotent(out: MixerOutput)
    ensures
        spec_handle_controls(spec_handle_controls(out, None), None) == spec_handle_controls(
            out,
            None,
        ),
{
}

/// Every mixed output is within the duty range, whatever the sample.
pub proof fn lemma_mix_bounded(data: JoystickData)
    ensures
        output_wf(spec_mix(data)),
        output_wf(safe_output()),
{
    lemma_axis_scaled_range(data.j2.1);
}

/// Inputs whose throttle falls below the deadzone all mix to the same
/// rotor outputs: the throttle is fully cut.
pub proof fn lemma_throttle_cut(t1: u16, t2: u16, r: u16)
    requires
        axis_scaled(t1) < THROTTLE_DEADZONE,
        axis_scaled(t2) < THROTTLE_DEADZONE,
    ensures
        spec_left(t1, r) == spec_left(t2, r),
        spec_right(t1, r) == spec_right(t2, r),
{
}

/// Equal-and-opposite rudder inputs swap the two rotor outputs.
pub proof fn lemma_rudder_symmetry(t: u16, r1: u16, r2: u16)
    requires
        spec_rudder(r1) == -spec_rudder(r2),
    ensures
        spec_left(t, r1) == spec_right(t, r2),
        spec_right(t, r1) == spec_left(t, r2),
{
}

/// Number of raw samples averaged by the calibration pass.
pub const CALIBRATION_SAMPLES: usize = 10;

/// One incremental-averaging step: `avg + (s - avg) / i` with the
/// division truncating toward zero, for the i-th sample (i from 1).
pub open spec fn spec_cal_step(avg: int, s: int, i: int) -> int {
    if s >= avg {
        avg + (s - avg) / i
    } else {
        avg - (avg - s) / i
    }
}

/// The running average after folding the first `n` samples, starting
/// from zero.
pub open spec fn spec_cal_avg(samples: Seq<i16>, n: int) -> int
    decreases n,
{
    if n <= 0 {
        0
    } else {
        spec_cal_step(spec_cal_avg(samples, n - 1), samples[n - 1] as int, n)
    }
}

/// The incremental average never leaves the closed interval spanned by
/// zero and the samples seen so far; in particular it stays in the raw
/// sample range.
pub proof fn lemma_cal_step_between(avg: int, s: int, i: int)
    requires
        i >= 1,
    ensures
        avg <= s ==> avg <= spec_cal_step(avg, s, i) <= s,
        s <= avg ==> s <= spec_cal_step(avg, s, i) <= avg,
{
    if s >= avg {
        vstd::arithmetic::div_mod::lemma_div_basics_4(s - avg, i);
        vstd::arithmetic::div_mod::lemma_div_nonincreasing(s - avg, i);
    } else {
        vstd::arithmetic::div_mod::lemma_div_basics_4(avg - s, i);
        vstd::arithmetic::div_mod::lemma_div_nonincreasing(avg - s, i);
    }
}

/// The gyro stabilizer's state: the zero-point offset found by the
/// calibration pass, applied to every later raw sample. The feedback
/// controller that would consume the biased samples is a separate
/// extension point and is not wired to the mixer here.
pub struct Stabilizer {
    /// Negated average of the calibration samples; zero until calibrated.
    pub offset: i32,
    /// Whether the calibration pass has run.
    pub calibrated: bool,
}

impl Stabilizer {
    /// The offset stays within the (negated) raw sample range.
    pub open spec fn wf(&self) -> bool {
        -32767 <= self.offset <= 32768
    }

    /// A stabilizer starts uncalibrated with a zero offset.
    pub fn new() -> (st: Stabilizer)
        ensures
            st.offset == 0,
            !st.calibrated,
            st.wf(),
    {
        Stabilizer { offset: 0, calibrated: false }
    }

    /// Zero-point calibration: average the given raw samples with the
    /// incremental formula, then set the offset to the negated average —
    /// assuming the sensor should read zero at rest. Runs once: the
    /// offset is frozen after calibration completes.
    pub fn calibrate(&mut self, samples: &[i16])
        requires
            !old(self).calibrated,
            samples@.len() == CALIBRATION_SAMPLES,
        ensures
            final(self).offset == -spec_cal_avg(samples@, CALIBRATION_SAMPLES as int),
            final(self).calibrated,
            final(self).wf(),
    {
        let mut average: i32 = 0;
        let mut idx: usize = 0;
        while idx < CALIBRATION_SAMPLES
            invariant
                idx <= CALIBRATION_SAMPLES,
                samples@.len() == CALIBRATION_SAMPLES,
                average == spec_cal_avg(samples@, idx as int),
                -32768 <= average <= 32767,
            decreases CALIBRATION_SAMPLES - idx,
        {
            let s: i32 = samples[idx] as i32;
            let i: i32 = (idx + 1) as i32;
            proof {
                lemma_cal_step_between(average as int, s as int, i as int);
            }
            if s >= average {
                average = average + (s - average) / i;
            } else {
                average = average - (average - s) / i;
            }
            idx = idx + 1;
        }
        self.offset = -average;
        self.calibrated = true;
    }

    /// A steady-state reading: the raw sample biased by the calibrated
    /// offset.
    pub fn sample(&self, raw: i16) -> (s: i32)
        requires
            self.wf(),
        ensures
            s == raw + self.offset,
    {
        raw as i32 + self.offset
    }
}

/// Calibration convergence: a constant raw reading `c` over the whole
/// pass averages to exactly `c`, so the computed offset is exactly `-c`.
pub proof fn lemma_calibration_constant(samples: Seq<i16>, c: i16, n: int)
    requires
        0 <= n <= samples.len(),
        forall|j: int| 0 <= j < n ==> samples[j] == c,
    ensures
        n >= 1 ==> spec_cal_avg(samples, n) == c,
        n == 0 ==> spec_cal_avg(samples, n) == 0,
    decreases n,
{
    if n >= 1 {
        lemma_calibration_constant(samples, c, n - 1);
        if n == 1 {
            vstd::arithmetic::div_mod::lemma_div_basics(c as int);
        } else {
            vstd::arithmetic::div_mod::lemma_div_of0(n);
        }
    }
}

} // verus!
