use vstd::prelude::*;

use crate::fixed::{difference_raw, sum_raw, Fixed};
use crate::limits::{clamp_value, Limits};
use crate::term::{KDTerm, KITerm, KPTerm};

verus! {

/// One step's input: a measurement and the time elapsed since the step before.
///
/// The time delta is never below the smallest positive value, so a step can
/// always divide by it.
#[derive(Clone, Copy, Debug, PartialEq, Eq, Structural, Hash)]
pub struct PidIn {
    measurement: Fixed,
    tdelta: Fixed,
}

impl View for PidIn {
    /// The pair `(measurement, tdelta)` of raw values.
    type V = (int, int);

    closed spec fn view(&self) -> (int, int) {
        (self.measurement.raw as int, self.tdelta.raw as int)
    }
}

/// `tdelta` raised to the smallest positive value where it lies below it.
pub open spec fn floored_tdelta(tdelta: int) -> int {
    if tdelta < 1 { 1 } else { tdelta }
}

impl PidIn {
    #[verifier::type_invariant]
    spec fn positive_tdelta(self) -> bool {
        self.tdelta.raw >= 1
    }

    /// An input; a time delta below the smallest positive value is raised to it.
    pub fn new(measurement: Fixed, tdelta: Fixed) -> (r: PidIn)
        ensures
            r@ == (measurement.raw as int, floored_tdelta(tdelta.raw as int)),
    {
        let inf: Fixed = Fixed::infinity();
        let eps: Fixed = Fixed::epsilon();
        let below: Fixed = if tdelta.raw <= inf.raw { tdelta } else { inf };
        let tdelta_clamped: Fixed = if below.raw >= eps.raw { below } else { eps };
        PidIn { measurement, tdelta: tdelta_clamped }
    }

    pub fn measurement(&self) -> (r: Fixed)
        ensures
            r.raw == self@.0,
    {
        self.measurement
    }

    pub fn tdelta(&self) -> (r: Fixed)
        ensures
            r.raw == self@.1,
            r.raw >= 1,
    {
        proof {
            use_type_invariant(self);
        }
        self.tdelta
    }
}

/// One step's output: each term's clamped contribution and their clamped sum.
#[derive(Clone, Copy, Debug, PartialEq, Eq, Structural, Hash)]
pub struct PidOut {
    pub p: Fixed,
    pub i: Fixed,
    pub d: Fixed,
    pub out: Fixed,
}

impl PidOut {
    pub fn new(p: Fixed, i: Fixed, d: Fixed, out: Fixed) -> (r: PidOut)
        ensures
            r == (PidOut { p, i, d, out }),
    {
        PidOut { p, i, d, out }
    }
}

/// A PID controller: three terms, overall limits and a setpoint.
#[derive(Clone, Copy, Debug, PartialEq, Eq, Structural, Hash)]
pub struct PidCtrl {
    pub kp: KPTerm,
    pub ki: KITerm,
    pub kd: KDTerm,
    pub limits: Limits,
    pub setpoint: Fixed,
}

impl PidCtrl {
    /// The raw offset `setpoint - measurement` that a step works from.
    pub open spec fn offset(&self, measurement: int) -> int {
        difference_raw(self.setpoint.raw as int, measurement)
    }

    /// Every scale, the setpoint and the terms' state zero; no limits anywhere.
    pub open spec fn is_initial_with(&self, p: Fixed, i: Fixed, d: Fixed) -> bool {
        &&& self.kp.scale == p
        &&& self.ki.scale == i
        &&& self.kd.scale == d
        &&& self.ki.accumulate.raw == 0
        &&& self.kd.prev_measurement.raw == 0
        &&& self.setpoint.raw == 0
        &&& self.kp.limits@ == (i64::MIN as int, i64::MAX as int)
        &&& self.ki.limits@ == (i64::MIN as int, i64::MAX as int)
        &&& self.kd.limits@ == (i64::MIN as int, i64::MAX as int)
        &&& self.limits@ == (i64::MIN as int, i64::MAX as int)
    }

    /// A controller with all gains zero.
    pub fn new() -> (r: PidCtrl)
        ensures
            r.is_initial_with(Fixed { raw: 0 }, Fixed { raw: 0 }, Fixed { raw: 0 }),
    {
        PidCtrl::new_with_pid(Fixed::zero(), Fixed::zero(), Fixed::zero())
    }

    /// A controller with the gains `p`, `i` and `d`.
    pub fn new_with_pid(p: Fixed, i: Fixed, d: Fixed) -> (r: PidCtrl)
        ensures
            r.is_initial_with(p, i, d),
    {
        let mut kp: KPTerm = KPTerm::new();
        kp.scale = p;
        let mut ki: KITerm = KITerm::new();
        ki.scale = i;
        let mut kd: KDTerm = KDTerm::new();
        kd.scale = d;
        PidCtrl { kp, ki, kd, limits: Limits::new(), setpoint: Fixed::zero() }
    }

    /// Sets the setpoint and seeds the derivative term's previous measurement,
    /// so that the first step sees no spurious change.
    pub fn init(&mut self, setpoint: Fixed, prev_measurement: Fixed) -> (r: &mut Self)
        ensures
            r.setpoint == setpoint,
            r.kd.prev_measurement == prev_measurement,
            r.kd.scale == old(self).kd.scale,
            r.kd.limits == old(self).kd.limits,
            r.kp == old(self).kp,
            r.ki == old(self).ki,
            r.limits == old(self).limits,
            *final(self) == *final(r),
    {
        self.setpoint = setpoint;
        self.kd.prev_measurement = prev_measurement;
        self
    }

    /// One control step: the proportional, integral and derivative terms step
    /// in that order on `setpoint - measurement`, and their sum is clamped
    /// into the overall limits.
    pub fn step(&mut self, input: PidIn) -> (r: PidOut)
        ensures
            r.p.raw == old(self).kp.output(old(self).offset(input@.0)),
            r.i.raw == old(self).ki.output(old(self).offset(input@.0), input@.1),
            r.d.raw == old(self).kd.output(input@.0, input@.1),
            r.out.raw == clamp_value(
                sum_raw(sum_raw(r.p.raw as int, r.i.raw as int), r.d.raw as int),
                old(self).limits@,
            ),
            old(self).limits@.0 <= r.out.raw <= old(self).limits@.1,
            final(self).ki.accumulate == r.i,
            final(self).ki.scale == old(self).ki.scale,
            final(self).ki.limits == old(self).ki.limits,
            final(self).kd.prev_measurement.raw == input@.0,
            final(self).kd.scale == old(self).kd.scale,
            final(self).kd.limits == old(self).kd.limits,
            final(self).kp == old(self).kp,
            final(self).limits == old(self).limits,
            final(self).setpoint == old(self).setpoint,
    {
        let measurement: Fixed = input.measurement();
        let tdelta: Fixed = input.tdelta();
        let offset: Fixed = self.setpoint.saturating_sub(measurement);
        let p: Fixed = self.kp.step(offset);
        let i: Fixed = self.ki.step(offset, tdelta);
        let d: Fixed = self.kd.step(measurement, tdelta);
        PidOut::new(p, i, d, self.limits.clamp(p.saturating_add(i).saturating_add(d)))
    }
}

impl Default for PidCtrl {
    fn default() -> (r: PidCtrl)
        ensures
            r.is_initial_with(Fixed { raw: 0 }, Fixed { raw: 0 }, Fixed { raw: 0 }),
    {
        PidCtrl::new()
    }
}

} // verus!
