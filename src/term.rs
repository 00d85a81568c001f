use vstd::prelude::*;

use crate::fixed::{difference_raw, product_raw, quotient_raw, sum_raw, Fixed};
use crate::limits::{clamp_value, Limits};

verus! {

/// The proportional term: the scaled offset, clamped.
#[derive(Clone, Copy, Debug, PartialEq, Eq, Structural, Hash)]
pub struct KPTerm {
    pub limits: Limits,
    pub scale: Fixed,
}

impl KPTerm {
    /// What `step` returns for an offset.
    pub open spec fn output(&self, offset: int) -> int {
        clamp_value(product_raw(self.scale.raw as int, offset), self.limits@)
    }

    /// A term with scale zero and no limits.
    pub fn new() -> (r: KPTerm)
        ensures
            r.scale.raw == 0,
            r.limits@ == (i64::MIN as int, i64::MAX as int),
    {
        KPTerm { limits: Limits::new(), scale: Fixed::zero() }
    }

    pub fn set_scale(&mut self, val: Fixed) -> (r: &mut Self)
        ensures
            r.scale == val,
            r.limits == old(self).limits,
            *final(self) == *final(r),
    {
        self.scale = val;
        self
    }

    /// `scale * offset`, clamped into the limits.
    pub fn step(&self, offset: Fixed) -> (r: Fixed)
        ensures
            r.raw == self.output(offset.raw as int),
            self.limits@.0 <= r.raw <= self.limits@.1,
    {
        self.limits.clamp(self.scale.saturating_mul(offset))
    }
}

impl Default for KPTerm {
    fn default() -> (r: KPTerm)
        ensures
            r.scale.raw == 0,
            r.limits@ == (i64::MIN as int, i64::MAX as int),
    {
        KPTerm::new()
    }
}

/// The integral term: a running sum of scaled offsets times elapsed time.
///
/// The clamped value is what is kept, so the sum never winds up beyond the limits.
#[derive(Clone, Copy, Debug, PartialEq, Eq, Structural, Hash)]
pub struct KITerm {
    pub limits: Limits,
    pub scale: Fixed,
    pub accumulate: Fixed,
}

/// The accumulator after one integral step from `accumulate`.
pub open spec fn integral_next(
    gain: int,
    bounds: (int, int),
    accumulate: int,
    offset: int,
    tdelta: int,
) -> int {
    clamp_value(sum_raw(product_raw(product_raw(gain, offset), tdelta), accumulate), bounds)
}

impl KITerm {
    /// What `step` returns, and keeps, for an offset and a time delta.
    pub open spec fn output(&self, offset: int, tdelta: int) -> int {
        integral_next(self.scale.raw as int, self.limits@, self.accumulate.raw as int, offset, tdelta)
    }

    /// The accumulator after a step for each `(offset, tdelta)` of `steps`, in order.
    pub open spec fn accumulate_after(&self, steps: Seq<(int, int)>) -> int
        decreases steps.len(),
    {
        if steps.len() == 0 {
            self.accumulate.raw as int
        } else {
            let last = steps.last();
            integral_next(
                self.scale.raw as int,
                self.limits@,
                self.accumulate_after(steps.drop_last()),
                last.0,
                last.1,
            )
        }
    }

    /// A term with scale zero, accumulator zero and no limits.
    pub fn new() -> (r: KITerm)
        ensures
            r.scale.raw == 0,
            r.accumulate.raw == 0,
            r.limits@ == (i64::MIN as int, i64::MAX as int),
    {
        KITerm { limits: Limits::new(), scale: Fixed::zero(), accumulate: Fixed::zero() }
    }

    pub fn set_scale(&mut self, val: Fixed) -> (r: &mut Self)
        ensures
            r.scale == val,
            r.limits == old(self).limits,
            r.accumulate == old(self).accumulate,
            *final(self) == *final(r),
    {
        self.scale = val;
        self
    }

    /// Adds `scale * offset * tdelta` to the accumulator, clamps the sum into
    /// the limits, keeps it and returns it.
    pub fn step(&mut self, offset: Fixed, tdelta: Fixed) -> (r: Fixed)
        ensures
            r.raw == old(self).output(offset.raw as int, tdelta.raw as int),
            old(self).limits@.0 <= r.raw <= old(self).limits@.1,
            final(self).accumulate == r,
            final(self).limits == old(self).limits,
            final(self).scale == old(self).scale,
    {
        let i: Fixed = self.limits.clamp(
            self.scale.saturating_mul(offset).saturating_mul(tdelta).saturating_add(self.accumulate),
        );
        self.accumulate = i;
        i
    }
}

impl Default for KITerm {
    fn default() -> (r: KITerm)
        ensures
            r.scale.raw == 0,
            r.accumulate.raw == 0,
            r.limits@ == (i64::MIN as int, i64::MAX as int),
    {
        KITerm::new()
    }
}

/// However many steps an integral term takes, with whatever offsets and time
/// deltas, its accumulator ends within its limits once it has taken one.
pub proof fn lemma_integral_stays_within_limits(term: KITerm, steps: Seq<(int, int)>)
    requires
        term.limits@.0 <= term.limits@.1,
        steps.len() > 0,
    ensures
        term.limits@.0 <= term.accumulate_after(steps) <= term.limits@.1,
{
}

/// The derivative term: the scaled fall of the measurement per unit of time.
#[derive(Clone, Copy, Debug, PartialEq, Eq, Structural, Hash)]
pub struct KDTerm {
    pub limits: Limits,
    pub scale: Fixed,
    pub prev_measurement: Fixed,
}

impl KDTerm {
    /// What `step` returns for a measurement and a time delta.
    pub open spec fn output(&self, measurement: int, tdelta: int) -> int {
        clamp_value(
            quotient_raw(
                product_raw(self.scale.raw as int, difference_raw(self.prev_measurement.raw as int, measurement)),
                tdelta,
            ),
            self.limits@,
        )
    }

    /// A term with scale zero, previous measurement zero and no limits.
    pub fn new() -> (r: KDTerm)
        ensures
            r.scale.raw == 0,
            r.prev_measurement.raw == 0,
            r.limits@ == (i64::MIN as int, i64::MAX as int),
    {
        KDTerm { limits: Limits::new(), scale: Fixed::zero(), prev_measurement: Fixed::zero() }
    }

    pub fn set_scale(&mut self, val: Fixed) -> (r: &mut Self)
        ensures
            r.scale == val,
            r.limits == old(self).limits,
            r.prev_measurement == old(self).prev_measurement,
            *final(self) == *final(r),
    {
        self.scale = val;
        self
    }

    /// `scale * (prev_measurement - measurement) / tdelta`, clamped into the
    /// limits; `measurement` becomes the previous measurement.
    pub fn step(&mut self, measurement: Fixed, tdelta: Fixed) -> (r: Fixed)
        requires
            tdelta.raw > 0,
        ensures
            r.raw == old(self).output(measurement.raw as int, tdelta.raw as int),
            old(self).limits@.0 <= r.raw <= old(self).limits@.1,
            final(self).prev_measurement == measurement,
            final(self).limits == old(self).limits,
            final(self).scale == old(self).scale,
    {
        let fall: Fixed = self.prev_measurement.saturating_sub(measurement);
        let d: Fixed = self.limits.clamp(self.scale.saturating_mul(fall).saturating_div(tdelta));
        self.prev_measurement = measurement;
        d
    }
}

impl Default for KDTerm {
    fn default() -> (r: KDTerm)
        ensures
            r.scale.raw == 0,
            r.prev_measurement.raw == 0,
            r.limits@ == (i64::MIN as int, i64::MAX as int),
    {
        KDTerm::new()
    }
}

/// A derivative step that sees the same measurement as the step before it
/// (so `prev_measurement` is that measurement) returns exactly zero, wherever
/// the limits admit zero.
pub proof fn lemma_derivative_zero_when_steady(term: KDTerm, measurement: int, tdelta: int)
    requires
        term.prev_measurement.raw == measurement,
        tdelta > 0,
        term.limits@.0 <= 0 <= term.limits@.1,
    ensures
        term.output(measurement, tdelta) == 0,
{
    assert((term.scale.raw as int) * 0 == 0);
}

} // verus!
