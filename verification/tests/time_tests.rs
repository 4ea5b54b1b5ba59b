use wormhole::time::virt::{clamp_delta, DEFAULT_MAX_DELTA_MILLIS};
use wormhole::time::{Duration, Fixed, Instant, Real, Time};

#[test]
fn duration_constructors_agree() {
    assert_eq!(Duration::from_secs(2).as_nanos(), 2_000_000_000);
    assert_eq!(Duration::from_millis(250).as_nanos(), 250_000_000);
    assert_eq!(Duration::from_micros(15625).as_nanos(), 15_625_000);
    assert_eq!(Duration::from_nanos(7).as_nanos(), 7);
    assert_eq!(Duration::new(1, 1_500_000_000).as_nanos(), 2_500_000_000);
    assert_eq!(Duration::new(3, 5).as_secs(), 3);
    assert_eq!(Duration::new(3, 5).subsec_nanos(), 5);
    assert!(Duration::zero().is_zero());
    assert!(!Duration::from_nanos(1).is_zero());
}

#[test]
fn duration_largest_span() {
    let max = Duration::new(u64::MAX, 999_999_999);
    assert_eq!(max.as_secs(), u64::MAX);
    assert_eq!(max.subsec_nanos(), 999_999_999);
    assert!(max.checked_add(Duration::from_nanos(1)).is_none());
    assert_eq!(max.checked_add(Duration::zero()), Some(max));
}

#[test]
fn duration_subtraction() {
    let a = Duration::from_millis(5);
    let b = Duration::from_millis(8);
    assert_eq!(a.checked_sub(b), None);
    assert_eq!(b.checked_sub(a), Some(Duration::from_millis(3)));
    assert_eq!(a.saturating_sub(b), Duration::zero());
    assert_eq!(b.saturating_sub(a).as_nanos(), 3_000_000);
    assert_eq!(b.minus(a), Duration::from_millis(3));
    assert_eq!(a.plus(b), Duration::from_millis(13));
}

#[test]
fn clock_advances_by_steps() {
    let mut t = Time::<()>::new_with(());
    assert_eq!(t.elapsed().as_nanos(), 0);
    t.advance_by(Duration::from_millis(16));
    t.advance_by(Duration::from_millis(17));
    assert_eq!(t.delta(), Duration::from_millis(17));
    assert_eq!(t.elapsed(), Duration::from_millis(33));
}

#[test]
fn clock_advances_to_a_total() {
    let mut t = Time::<()>::default();
    t.advance_to(Duration::from_secs(1));
    t.advance_to(Duration::from_millis(1500));
    assert_eq!(t.delta(), Duration::from_millis(500));
    assert_eq!(t.elapsed(), Duration::from_millis(1500));
    t.advance_to(Duration::from_millis(1500));
    assert_eq!(t.delta(), Duration::zero());
}

#[test]
fn clock_without_context_keeps_spans() {
    let mut t = Time::<Fixed>::default();
    t.advance_by(Duration::from_millis(4));
    let g = t.as_generic();
    assert_eq!(g.delta(), Duration::from_millis(4));
    assert_eq!(g.elapsed(), Duration::from_millis(4));
}

#[test]
fn fixed_default_timestep_is_64_hz() {
    let t = Time::<Fixed>::default();
    assert_eq!(t.timestep().as_nanos(), 15_625_000);
    assert_eq!(t.overstep().as_nanos(), 0);
    let f = Fixed::default();
    let t2 = Time::new_with(f);
    assert_eq!(t2.timestep(), Duration::from_micros(15625));
}

#[test]
fn fixed_from_duration_sets_timestep() {
    let t = Time::<Fixed>::from_duration(Duration::from_millis(10));
    assert_eq!(t.timestep(), Duration::from_millis(10));
    assert_eq!(t.overstep(), Duration::zero());
    assert_eq!(t.elapsed(), Duration::zero());
}

#[test]
fn fixed_set_timestep_keeps_overstep() {
    let mut t = Time::<Fixed>::default();
    t.accumulate(Duration::from_millis(3));
    t.set_timestep(Duration::from_millis(1));
    assert_eq!(t.timestep(), Duration::from_millis(1));
    assert_eq!(t.overstep(), Duration::from_millis(3));
}

#[test]
fn fixed_expend_spends_whole_steps_only() {
    let mut t = Time::<Fixed>::from_duration(Duration::from_millis(10));
    t.accumulate(Duration::from_millis(25));
    assert!(t.expend());
    assert_eq!(t.delta(), Duration::from_millis(10));
    assert!(t.expend());
    assert!(!t.expend());
    assert_eq!(t.overstep(), Duration::from_millis(5));
    assert_eq!(t.elapsed(), Duration::from_millis(20));
    assert_eq!(t.delta(), Duration::from_millis(10));
}

#[test]
fn fixed_expend_conserves_time() {
    let mut t = Time::<Fixed>::from_duration(Duration::from_millis(7));
    t.accumulate(Duration::from_millis(50));
    let before = t.overstep().as_nanos() + t.elapsed().as_nanos();
    let mut steps = 0;
    while t.expend() {
        steps += 1;
        assert_eq!(t.overstep().as_nanos() + t.elapsed().as_nanos(), before);
    }
    assert_eq!(steps, 50 / 7);
    assert_eq!(t.overstep(), Duration::from_millis(50 % 7));
}

#[test]
fn fixed_expend_exact_multiple_leaves_nothing() {
    let mut t = Time::<Fixed>::from_duration(Duration::from_millis(5));
    t.accumulate(Duration::from_millis(5));
    assert!(t.expend());
    assert_eq!(t.overstep(), Duration::zero());
    assert!(!t.expend());
}

#[test]
fn fixed_discard_overstep_saturates() {
    let mut t = Time::<Fixed>::default();
    t.accumulate(Duration::from_millis(3));
    t.discard_overstep(Duration::from_millis(1));
    assert_eq!(t.overstep(), Duration::from_millis(2));
    t.discard_overstep(Duration::from_millis(10));
    assert_eq!(t.overstep(), Duration::zero());
}

#[test]
fn real_new_is_never_updated() {
    let start = Instant::from_origin(Duration::from_secs(1));
    let t = Time::<Real>::new(start);
    assert_eq!(t.startup(), start);
    assert_eq!(t.first_update(), None);
    assert_eq!(t.last_update(), None);
    assert_eq!(t.elapsed(), Duration::zero());
}

#[test]
fn real_first_update_only_records() {
    let start = Instant::from_origin(Duration::from_secs(1));
    let mut t = Time::<Real>::new(start);
    let at = Instant::from_origin(Duration::from_secs(2));
    t.update_with_instant(at);
    assert_eq!(t.elapsed(), Duration::zero());
    assert_eq!(t.first_update(), Some(at));
    assert_eq!(t.last_update(), Some(at));
}

#[test]
fn real_later_updates_measure_from_recorded_instant() {
    let start = Instant::from_origin(Duration::zero());
    let mut t = Time::<Real>::new(start);
    t.update_with_instant(Instant::from_origin(Duration::from_secs(1)));
    t.update_with_instant(Instant::from_origin(Duration::from_secs(3)));
    assert_eq!(t.delta(), Duration::from_secs(2));
    assert_eq!(t.elapsed(), Duration::from_secs(2));
    // The recorded last update stays at the first update.
    assert_eq!(t.last_update(), Some(Instant::from_origin(Duration::from_secs(1))));
    t.update_with_instant(Instant::from_origin(Duration::from_secs(4)));
    assert_eq!(t.delta(), Duration::from_secs(3));
    assert_eq!(t.elapsed(), Duration::from_secs(5));
}

#[test]
fn real_update_at_earlier_instant_is_empty_step() {
    let mut t = Time::<Real>::new(Instant::from_origin(Duration::zero()));
    t.update_with_instant(Instant::from_origin(Duration::from_secs(5)));
    t.update_with_instant(Instant::from_origin(Duration::from_secs(4)));
    assert_eq!(t.delta(), Duration::zero());
    assert_eq!(t.elapsed(), Duration::zero());
}

#[test]
fn real_update_with_duration_from_startup_then_from_last() {
    let mut t = Time::<Real>::new(Instant::from_origin(Duration::from_secs(10)));
    t.update_with_duration(Duration::from_millis(500));
    assert_eq!(t.first_update(), Some(Instant::from_origin(Duration::from_millis(10_500))));
    assert_eq!(t.elapsed(), Duration::zero());
    t.update_with_duration(Duration::from_millis(16));
    assert_eq!(t.delta(), Duration::from_millis(16));
    assert_eq!(t.elapsed(), Duration::from_millis(16));
}

#[test]
fn instant_arithmetic() {
    let a = Instant::from_origin(Duration::from_secs(1));
    let b = a.plus(Duration::from_millis(250));
    assert_eq!(b.since_origin(), Duration::from_millis(1250));
    assert_eq!(b.saturating_duration_since(a), Duration::from_millis(250));
    assert_eq!(a.saturating_duration_since(b), Duration::zero());
}

#[test]
fn spending_until_exhausted_takes_whole_steps() {
    let mut t = Time::<Fixed>::from_duration(Duration::from_millis(10));
    t.accumulate(Duration::from_millis(7));
    t.expend();
    t.accumulate(Duration::from_millis(28));
    let mut n: u64 = 0;
    while t.expend() {
        n += 1;
    }
    assert_eq!(n, 3);
    assert_eq!(t.overstep().as_nanos(), 5_000_000);
    assert_eq!(t.elapsed().as_nanos(), 30_000_000);
    assert_eq!(t.timestep().as_nanos(), 10_000_000);
}

#[test]
fn virtual_steps_are_clamped_to_the_largest_step() {
    let max = Duration::from_millis(DEFAULT_MAX_DELTA_MILLIS);
    assert_eq!(clamp_delta(Duration::from_millis(300), max).as_nanos(), 250_000_000);
    assert_eq!(clamp_delta(Duration::from_millis(16), max).as_nanos(), 16_000_000);
    assert_eq!(clamp_delta(max, max).as_nanos(), 250_000_000);
}
