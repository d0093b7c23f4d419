//! Proportional-derivative controller on fixed-point measurements.
//!
//! The setpoint is zero: the measurement fed in is already the error.  Each
//! term and the sum are clamped to one full scale (1000 thousandths), the
//! limits the firmware configures.  The derivative acts on the change of the
//! measurement and contributes nothing on the first sample.

use vstd::prelude::*;
use crate::num::{tdiv, div_trunc, clamped, clamp_i64, lemma_tdiv_bound};

verus! {

/// Clamp a control term to one full scale.
pub open spec fn clamp_full(v: int) -> int {
    clamped(v, -1000, 1000)
}

/// The controller's output for a measurement, before the state is advanced:
/// clamped proportional term plus clamped derivative term, clamped again.
pub open spec fn pid_output_spec(s: PidState, meas: int) -> int {
    let p = clamp_full(tdiv(-(s.kp * meas), s.meas_div as int));
    let d = if s.has_prev {
        clamp_full(tdiv(-(s.kd * (meas - s.prev)), s.meas_div as int))
    } else {
        0
    };
    clamp_full(p + d)
}

/// One proportional-derivative loop.
#[derive(Clone, Copy, PartialEq, Eq, Structural, Debug)]
pub struct PidState {
    /// Proportional gain in thousandths per base unit.
    pub kp: i32,
    /// Derivative gain in thousandths per base unit.
    pub kd: i32,
    /// Thousandths of measurement per base unit: 1 for a measurement in
    /// degrees, 10 for one in millimeters read as centimeters.
    pub meas_div: i32,
    /// Last measurement, once one was seen.
    pub prev: i32,
    /// Whether a measurement was seen since the last re-arm.
    pub has_prev: bool,
}

/// Values the controller accepts without overflow.
pub open spec fn pid_wf(s: PidState) -> bool {
    &&& 0 <= s.kp <= 1000000
    &&& 0 <= s.kd <= 1000000
    &&& 1 <= s.meas_div <= 1000000
    &&& -6000000 <= s.prev <= 6000000
}

impl PidState {
    /// A freshly armed controller: gains loaded, no measurement seen, so the
    /// first output has no derivative part.
    pub fn new(kp: i32, kd: i32, meas_div: i32) -> (s: PidState)
        requires
            0 <= kp <= 1000000,
            0 <= kd <= 1000000,
            1 <= meas_div <= 1000000,
        ensures
            s.kp == kp && s.kd == kd && s.meas_div == meas_div,
            !s.has_prev,
            s.prev == 0,
            pid_wf(s),
    {
        PidState { kp, kd, meas_div, prev: 0, has_prev: false }
    }

    /// Feed one measurement and produce the clamped control output.
    pub fn next_output(&mut self, meas: i32) -> (r: i32)
        requires
            pid_wf(*old(self)),
            -6000000 <= meas <= 6000000,
        ensures
            pid_wf(*final(self)),
            r == pid_output_spec(*old(self), meas as int),
            -1000 <= r <= 1000,
            final(self).prev == meas,
            final(self).has_prev,
            final(self).kp == old(self).kp,
            final(self).kd == old(self).kd,
            final(self).meas_div == old(self).meas_div,
    {
        proof {
            assert(-(1000000 * 6000000) <= self.kp * meas <= 1000000 * 6000000)
                by (nonlinear_arith)
                requires 0 <= self.kp <= 1000000 && -6000000 <= meas <= 6000000;
            assert(-(1000000 * 12000000) <= self.kd * (meas - self.prev) <= 1000000 * 12000000)
                by (nonlinear_arith)
                requires
                    0 <= self.kd <= 1000000
                        && -12000000 <= meas - self.prev <= 12000000,
            ;
            lemma_tdiv_bound(-(self.kp as int * meas as int), self.meas_div as int);
            lemma_tdiv_bound(
                -(self.kd as int * (meas as int - self.prev as int)),
                self.meas_div as int,
            );
        }
        let p_raw: i64 = div_trunc(
            -((self.kp as i64) * (meas as i64)),
            self.meas_div as i64,
        );
        let p: i64 = clamp_i64(p_raw, -1000, 1000);
        let d: i64 = if self.has_prev {
            let d_raw: i64 = div_trunc(
                -((self.kd as i64) * ((meas as i64) - (self.prev as i64))),
                self.meas_div as i64,
            );
            clamp_i64(d_raw, -1000, 1000)
        } else {
            0
        };
        let out: i64 = clamp_i64(p + d, -1000, 1000);
        self.prev = meas;
        self.has_prev = true;
        out as i32
    }
}

} // verus!
