use vstd::prelude::*;

use crate::fixed::{abs_raw, saturate, Fixed};

verus! {

/// The one way configuring a controller can fail.
#[derive(Clone, Copy, Debug, PartialEq, Eq, Structural, PartialOrd, Ord, Hash)]
pub enum PidError {
    /// The requested bound would put the lower bound above the upper one.
    LimitOutBound,
}

/// `v` brought into `[lower, upper]`.
pub open spec fn clamp_value(v: int, bounds: (int, int)) -> int {
    if v < bounds.0 {
        bounds.0
    } else if v > bounds.1 {
        bounds.1
    } else {
        v
    }
}

/// A closed range `[lower, upper]` that values are clamped into.
///
/// The range is never empty: every way of changing it keeps `lower <= upper`.
#[derive(Clone, Copy, Debug, PartialEq, Eq, Structural, Hash)]
pub struct Limits {
    lower: Fixed,
    upper: Fixed,
}

impl View for Limits {
    /// The pair `(lower, upper)` of raw values.
    type V = (int, int);

    closed spec fn view(&self) -> (int, int) {
        (self.lower.raw as int, self.upper.raw as int)
    }
}

impl Limits {
    #[verifier::type_invariant]
    spec fn ordered(self) -> bool {
        self.lower.raw <= self.upper.raw
    }

    /// The widest range, from negative to positive infinity.
    pub fn new() -> (r: Limits)
        ensures
            r@ == (i64::MIN as int, i64::MAX as int),
    {
        Limits { lower: Fixed::neg_infinity(), upper: Fixed::infinity() }
    }

    /// The lower bound.
    pub fn lower(&self) -> (r: Fixed)
        ensures
            r.raw == self@.0,
    {
        self.lower
    }

    /// The upper bound.
    pub fn upper(&self) -> (r: Fixed)
        ensures
            r.raw == self@.1,
    {
        self.upper
    }

    /// `val` brought into the range.
    pub fn clamp(&self, val: Fixed) -> (r: Fixed)
        ensures
            r.raw == clamp_value(val.raw as int, self@),
            self@.0 <= r.raw <= self@.1,
    {
        proof {
            use_type_invariant(self);
        }
        let below: Fixed = if val.raw <= self.upper.raw { val } else { self.upper };
        if below.raw >= self.lower.raw { below } else { self.lower }
    }

    /// Sets the symmetric range `[-|val|, |val|]`.
    pub fn set_limit(&mut self, val: Fixed) -> (r: &mut Self)
        ensures
            r@ == (saturate(-abs_raw(val.raw as int)), abs_raw(val.raw as int)),
            *final(self) == *final(r),
    {
        let magnitude: Fixed = val.abs();
        *self = Limits { lower: magnitude.saturating_neg(), upper: magnitude };
        self
    }

    /// Sets the upper bound to `val`, unless it lies below the lower bound;
    /// then fails and leaves the range as it was.
    pub fn try_set_upper(&mut self, val: Fixed) -> (r: Result<&mut Self, PidError>)
        ensures
            r is Ok <==> old(self)@.0 <= val.raw,
            r matches Ok(s) ==> s@ == (old(self)@.0, val.raw as int) && *final(self) == *final(s),
            r is Err ==> r == Err::<&mut Self, PidError>(PidError::LimitOutBound) && *final(self)
                == *old(self),
    {
        if self.lower.raw <= val.raw {
            *self = Limits { lower: self.lower, upper: val };
            Ok(self)
        } else {
            Err(PidError::LimitOutBound)
        }
    }

    /// Sets the lower bound to `val`, unless it lies above the upper bound;
    /// then fails and leaves the range as it was.
    pub fn try_set_lower(&mut self, val: Fixed) -> (r: Result<&mut Self, PidError>)
        ensures
            r is Ok <==> val.raw <= old(self)@.1,
            r matches Ok(s) ==> s@ == (val.raw as int, old(self)@.1) && *final(self) == *final(s),
            r is Err ==> r == Err::<&mut Self, PidError>(PidError::LimitOutBound) && *final(self)
                == *old(self),
    {
        if self.upper.raw >= val.raw {
            *self = Limits { lower: val, upper: self.upper };
            Ok(self)
        } else {
            Err(PidError::LimitOutBound)
        }
    }
}

/// For limits with `lower <= upper`, a clamped value lies in `[lower, upper]`,
/// and a value already there comes back unchanged.
pub proof fn lemma_clamp_within(limits: Limits, v: Fixed)
    requires
        limits@.0 <= limits@.1,
    ensures
        limits@.0 <= clamp_value(v.raw as int, limits@) <= limits@.1,
        limits@.0 <= v.raw <= limits@.1 ==> clamp_value(v.raw as int, limits@) == v.raw,
{
}

impl Default for Limits {
    fn default() -> (r: Limits)
        ensures
            r@ == (i64::MIN as int, i64::MAX as int),
    {
        Limits::new()
    }
}

} // verus!
