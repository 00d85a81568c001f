use pid_ctrl::{Fixed, KDTerm, KITerm, Limits, PidCtrl, PidError, PidIn, PidOut};

fn whole(v: i32) -> Fixed {
    Fixed::from_int(v)
}

fn ranged(lower: i32, upper: i32) -> Limits {
    let mut l = Limits::new();
    l.try_set_upper(whole(upper)).unwrap();
    l.try_set_lower(whole(lower)).unwrap();
    l
}

#[test]
fn clamp_stays_in_range_and_keeps_inner_values() {
    let l = ranged(-2, 3);
    assert_eq!(l.clamp(whole(-9)), whole(-2));
    assert_eq!(l.clamp(whole(9)), whole(3));
    assert_eq!(l.clamp(whole(1)), whole(1));
    assert_eq!(l.clamp(whole(-2)), whole(-2));
    assert_eq!(l.clamp(whole(3)), whole(3));
    assert_eq!(l.clamp(Fixed::infinity()), whole(3));
    assert_eq!(l.clamp(Fixed::neg_infinity()), whole(-2));
}

#[test]
fn default_limits_are_unbounded() {
    let l = Limits::default();
    assert_eq!(l.lower(), Fixed::neg_infinity());
    assert_eq!(l.upper(), Fixed::infinity());
    assert_eq!(l.clamp(whole(123456)), whole(123456));
}

#[test]
fn try_set_upper_succeeds_exactly_from_lower_up() {
    let mut l = ranged(1, 4);
    let before = l;
    assert_eq!(l.try_set_upper(whole(0)).unwrap_err(), PidError::LimitOutBound);
    assert_eq!(l, before);
    l.try_set_upper(whole(1)).unwrap();
    assert_eq!(l.lower(), whole(1));
    assert_eq!(l.upper(), whole(1));
}

#[test]
fn try_set_lower_rejects_a_bound_above_upper() {
    let mut l = ranged(1, 4);
    let before = l;
    assert_eq!(l.try_set_lower(whole(5)).unwrap_err(), PidError::LimitOutBound);
    assert_eq!(l, before);
    l.try_set_lower(whole(4)).unwrap();
    assert_eq!(l.lower(), whole(4));
}

#[test]
fn set_limit_is_symmetric_for_either_sign() {
    let mut l = Limits::new();
    l.set_limit(whole(-10));
    assert_eq!(l.lower(), whole(-10));
    assert_eq!(l.upper(), whole(10));
    l.set_limit(Fixed::neg_infinity());
    assert_eq!(l.lower(), Fixed::from_raw(-i64::MAX));
    assert_eq!(l.upper(), Fixed::infinity());
}

#[test]
fn integral_never_winds_up_past_limits() {
    let mut term = KITerm::new();
    term.set_scale(whole(1000));
    term.limits.set_limit(whole(50));
    for _ in 0..1000 {
        let i = term.step(whole(1000), whole(1));
        assert!(i.raw <= whole(50).raw && i.raw >= whole(-50).raw);
        assert_eq!(term.accumulate, i);
    }
    assert_eq!(term.accumulate, whole(50));
    // One step back down leaves the bound at once.
    assert_eq!(term.step(whole(-1), Fixed::from_raw(1_000)), Fixed::from_raw(49_000_000));
}

#[test]
fn derivative_is_zero_for_a_repeated_measurement() {
    let mut term = KDTerm::new();
    term.set_scale(whole(7));
    let first = term.step(whole(3), whole(2));
    assert_eq!(first, whole(-10).saturating_add(Fixed::from_raw(-500_000)));
    assert_eq!(term.step(whole(3), whole(2)), whole(0));
    assert_eq!(term.step(whole(3), Fixed::epsilon()), whole(0));
}

#[test]
fn derivative_divides_the_scaled_fall_by_the_time_delta() {
    let mut term = KDTerm::new();
    term.set_scale(whole(2));
    term.prev_measurement = whole(3);
    assert_eq!(term.step(whole(1), Fixed::from_raw(500_000)), whole(8));
    assert_eq!(term.prev_measurement, whole(1));
}

#[test]
fn input_raises_small_time_deltas_and_keeps_infinity() {
    assert_eq!(PidIn::new(whole(1), whole(-7)).tdelta(), Fixed::epsilon());
    assert_eq!(PidIn::new(whole(1), whole(0)).tdelta(), Fixed::epsilon());
    assert_eq!(PidIn::new(whole(1), Fixed::neg_infinity()).tdelta(), Fixed::epsilon());
    assert_eq!(PidIn::new(whole(1), Fixed::infinity()).tdelta(), Fixed::infinity());
    assert_eq!(PidIn::new(whole(1), whole(2)).tdelta(), whole(2));
    assert_eq!(PidIn::new(whole(1), whole(2)).measurement(), whole(1));
}

fn controller_after_three_steps() -> PidCtrl {
    let mut pid = PidCtrl::new_with_pid(whole(3), whole(2), whole(1));
    pid.init(whole(5), whole(0));
    assert_eq!(
        pid.step(PidIn::new(whole(0), whole(1))),
        PidOut::new(whole(15), whole(10), whole(0), whole(25))
    );
    pid.kp.set_scale(whole(4));
    assert_eq!(
        pid.step(PidIn::new(whole(0), whole(1))),
        PidOut::new(whole(20), whole(20), whole(0), whole(40))
    );
    pid.kp.limits.set_limit(whole(10));
    assert_eq!(
        pid.step(PidIn::new(whole(0), whole(1))),
        PidOut::new(whole(10), whole(30), whole(0), whole(40))
    );
    pid
}

#[test]
fn end_to_end_three_steps() {
    controller_after_three_steps();
}

#[test]
fn half_time_delta_after_three_steps() {
    let mut pid = controller_after_three_steps();
    assert_eq!(
        pid.step(PidIn::new(whole(0), Fixed::from_raw(500_000))),
        PidOut::new(whole(10), whole(35), whole(0), whole(45))
    );
}

#[test]
fn integral_upper_limit_caps_the_next_step() {
    let mut pid = controller_after_three_steps();
    pid.step(PidIn::new(whole(0), Fixed::from_raw(500_000)));
    pid.ki.limits.try_set_upper(whole(28)).unwrap();
    assert_eq!(
        pid.step(PidIn::new(whole(0), Fixed::from_raw(500_000))),
        PidOut::new(whole(10), whole(28), whole(0), whole(38))
    );
}

#[test]
fn overall_limits_clamp_the_sum() {
    let mut pid = PidCtrl::new_with_pid(whole(3), whole(0), whole(0));
    pid.init(whole(5), whole(0));
    pid.limits.set_limit(whole(4));
    assert_eq!(
        pid.step(PidIn::new(whole(0), whole(1))),
        PidOut::new(whole(15), whole(0), whole(0), whole(4))
    );
}

#[test]
fn fixed_point_arithmetic_rounds_toward_zero_and_saturates() {
    let half = Fixed::from_raw(500_000);
    assert_eq!(Fixed::from_raw(1).saturating_mul(half), Fixed::from_raw(0));
    assert_eq!(Fixed::from_raw(-3).saturating_mul(half), Fixed::from_raw(-1));
    assert_eq!(whole(3).saturating_mul(half), Fixed::from_raw(1_500_000));
    assert_eq!(whole(1).saturating_div(whole(3)), Fixed::from_raw(333_333));
    assert_eq!(whole(-1).saturating_div(whole(3)), Fixed::from_raw(-333_333));
    assert_eq!(whole(1).saturating_div(whole(-4)), Fixed::from_raw(-250_000));
    assert_eq!(Fixed::infinity().saturating_add(whole(1)), Fixed::infinity());
    assert_eq!(Fixed::neg_infinity().saturating_sub(whole(1)), Fixed::neg_infinity());
    assert_eq!(Fixed::infinity().saturating_mul(whole(2)), Fixed::infinity());
    assert_eq!(whole(-2).saturating_mul(Fixed::infinity()), Fixed::neg_infinity());
    assert_eq!(Fixed::neg_infinity().abs(), Fixed::infinity());
    assert_eq!(whole(-5).abs(), whole(5));
    assert_eq!(Fixed::neg_infinity().saturating_neg(), Fixed::infinity());
    assert_eq!(whole(7).saturating_sub(whole(9)), whole(-2));
}
