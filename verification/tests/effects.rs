use photonic_fx::effects::nodes::transition::{Frame, SelectState, SwitchState};
use photonic_fx::effects::attrs::button::{Button, ButtonAttr, State};
use photonic_fx::effects::attrs::looper::{Looper, LooperAttr};
use photonic_fx::effects::attrs::random::{Random, RandomError};
use photonic_fx::effects::attrs::sequence::{Sequence, SequenceAttr};
use photonic_fx::effects::attrs::switch::Switch;
use photonic_fx::effects::bounds::{Bounds, BoundsError};
use photonic_fx::effects::easing::{EasingDirection, EasingFunction, Easings};
use photonic_fx::effects::nodes::alert::in_even_block;
use photonic_fx::effects::nodes::solid::fill;
use photonic_fx::effects::nodes::splice::{calculate_split, splice_sizes, splice_update, SpliceError};
use photonic_fx::effects::registry::{color_free_attr, AttrKind, ColorSpace, NodeKind, NodeRegistry, Registry};

use rand::SeedableRng;

const MS: u128 = 1_000_000;

#[test]
fn bounds_ensure_accepts_inside_and_refuses_outside() {
    let bounds = Bounds::new(0, 10);
    assert_eq!(bounds.ensure(0), Ok(0));
    assert_eq!(bounds.ensure(10), Ok(10));
    assert_eq!(bounds.ensure(11), Err(BoundsError::OutOfBounds { value: 11, min: 0, max: 10 }));
    assert_eq!(bounds.ensure(-1), Err(BoundsError::OutOfBounds { value: -1, min: 0, max: 10 }));
}

#[test]
fn button_state_counts_down_and_releases() {
    assert_eq!(State::Pressed(100).update(30), State::Pressed(70));
    assert_eq!(State::Pressed(100).update(100), State::Released);
    assert_eq!(State::Pressed(100).update(150), State::Released);
    assert_eq!(State::Released.update(10), State::Released);
    assert!(State::Pressed(1).pressed());
    assert!(!State::Released.pressed());
}

#[test]
fn button_holds_for_hold_time_after_trigger() {
    let mut attr: ButtonAttr<i64> = Button { value_release: 1, value_pressed: 2, hold_time: 100 * MS }.materialize();
    assert_eq!(attr.update(false, 10 * MS), 1);
    assert_eq!(attr.update(true, 40 * MS), 2);
    assert_eq!(attr.state, State::Pressed(60 * MS));
    assert_eq!(attr.update(false, 50 * MS), 2);
    assert_eq!(attr.update(false, 10 * MS), 1);
    assert_eq!(attr.state, State::Released);
}

#[test]
fn button_frame_longer_than_hold_time_releases_at_once() {
    let mut attr = Button { value_release: 'r', value_pressed: 'p', hold_time: 5 }.materialize();
    assert_eq!(attr.update(true, 5), 'r');
}

#[test]
fn button_frames_add_up() {
    let split = State::Pressed(100).update(30).update(50);
    let whole = State::Pressed(100).update(80);
    assert_eq!(split, whole);
    assert_eq!(State::Pressed(100).update(60).update(50), State::Pressed(100).update(110));
}

#[test]
fn button_bounded_checks_both_values() {
    let bounds = Bounds::new(0, 5);
    let ok = Button { value_release: 0, value_pressed: 5, hold_time: 1 }.materialize_bounded(bounds);
    assert!(ok.is_ok());
    let err = Button { value_release: 7, value_pressed: 9, hold_time: 1 }.materialize_bounded(bounds);
    assert_eq!(err.err(), Some(BoundsError::OutOfBounds { value: 7, min: 0, max: 5 }));
    let err = Button { value_release: 1, value_pressed: 9, hold_time: 1 }.materialize_bounded(bounds);
    assert_eq!(err.err(), Some(BoundsError::OutOfBounds { value: 9, min: 0, max: 5 }));
}

#[test]
fn looper_wraps_around_its_bounds() {
    let mut attr = Looper { step: 2 }.materialize(Bounds::new(0, 4));
    assert_eq!((attr.min, attr.max, attr.step, attr.current), (0, 5, 2, 0));
    assert_eq!(attr.update(false), 0);
    assert_eq!(attr.update(true), 2);
    assert_eq!(attr.update(true), 4);
    assert_eq!(attr.update(true), 1);
    assert_eq!(attr.update(true), 3);
    assert_eq!(attr.update(true), 0);
}

#[test]
fn looper_negative_step_goes_backwards() {
    let mut attr = Looper { step: -1 }.materialize(Bounds::new(10, 13));
    assert_eq!(attr.step, 3);
    assert_eq!(attr.update(true), 13);
    assert_eq!(attr.update(true), 12);
    let whole = Looper { step: -4 }.materialize(Bounds::new(10, 13));
    assert_eq!(whole.step, 4);
    let big = Looper { step: -6 }.materialize(Bounds::new(10, 13));
    assert_eq!(big.step, 2);
}

#[test]
fn looper_full_cycle_returns_to_start() {
    let mut attr = LooperAttr { min: -3, max: 4, step: 5, current: 1 };
    let start = attr.current;
    for _ in 0..(attr.max - attr.min) {
        attr.update(true);
    }
    assert_eq!(attr.current, start);
}

#[test]
fn random_stays_in_bounds() {
    let mut attr = Random.materialize(Bounds::new(3, 7)).expect("entropy");
    for _ in 0..200 {
        let v = attr.update(true);
        assert!((3..=7).contains(&v));
    }
    let before = attr.current;
    assert_eq!(attr.update(false), before);
}

#[test]
fn random_single_value_and_empty_bounds() {
    let mut attr = Random.materialize(Bounds::new(4, 4)).expect("entropy");
    assert_eq!(attr.update(true), 4);
    assert_eq!(Random.materialize(Bounds::new(5, 4)).err(), Some(RandomError::EmptyRange));
}

#[test]
fn sequence_steps_forward_and_back() {
    let mut attr = Sequence { values: vec![10, 20, 30] }.materialize();
    assert_eq!(attr.update(false, false), 10);
    assert_eq!(attr.update(true, false), 20);
    assert_eq!(attr.update(true, true), 20);
    assert_eq!(attr.update(true, false), 30);
    assert_eq!(attr.update(true, false), 10);
    assert_eq!(attr.update(false, true), 30);
}

#[test]
fn sequence_next_then_prev_returns() {
    let mut attr = SequenceAttr { values: vec!['a', 'b', 'c', 'd'], position: 2 };
    attr.update(true, false);
    assert_eq!(attr.update(false, true), 'c');
    attr.update(false, true);
    assert_eq!(attr.update(true, false), 'c');
}

#[test]
fn sequence_bounded_reports_first_bad_value() {
    let ok = Sequence { values: vec![1, 2, 3] }.materialize_bounded(Bounds::new(0, 3)).ok().unwrap();
    assert_eq!(ok.values, vec![1, 2, 3]);
    assert_eq!(ok.position, 0);
    let err = Sequence { values: vec![1, 8, 9] }.materialize_bounded(Bounds::new(0, 3)).err();
    assert_eq!(err, Some(BoundsError::OutOfBounds { value: 8, min: 0, max: 3 }));
}

#[test]
fn switch_follows_input() {
    let attr = Switch { value_release: 1.5f64, value_pressed: 2.5 }.materialize();
    assert_eq!(attr.update(true), 2.5);
    assert_eq!(attr.update(false), 1.5);
    let err = Switch { value_release: 3, value_pressed: 9 }.materialize_bounded(Bounds::new(0, 5)).err();
    assert_eq!(err, Some(BoundsError::OutOfBounds { value: 9, min: 0, max: 5 }));
}

#[test]
fn split_counts_from_start_and_end() {
    assert_eq!(calculate_split(0, 10), Ok(0));
    assert_eq!(calculate_split(4, 10), Ok(4));
    assert_eq!(calculate_split(10, 10), Ok(10));
    assert_eq!(calculate_split(-3, 10), Ok(7));
    assert_eq!(calculate_split(-10, 10), Ok(0));
    assert_eq!(calculate_split(11, 10), Err(SpliceError::OutOfBounds { split: 11, size: 10 }));
    assert_eq!(calculate_split(-11, 10), Err(SpliceError::OutOfBounds { split: -11, size: 10 }));
    assert_eq!(calculate_split(-3, 10), calculate_split(7, 10));
}

#[test]
fn splice_sizes_cover_the_strip() {
    assert_eq!(splice_sizes(3, 8), Ok((3, 5)));
    assert_eq!(splice_sizes(-2, 8), Ok((6, 2)));
    assert!(splice_sizes(9, 8).is_err());
}

#[test]
fn splice_concatenates_parts() {
    let (a, b) = splice_sizes(2, 5).unwrap();
    let first = vec![1u8; a];
    let second = vec![2u8; b];
    let mut out = vec![0u8; 5];
    splice_update(&first, &second, &mut out);
    assert_eq!(out, vec![1, 1, 2, 2, 2]);
    let mut short = vec![0u8; 3];
    splice_update(&first, &second, &mut short);
    assert_eq!(short, vec![1, 1, 2]);
}

#[test]
fn alert_blocks_alternate() {
    let lit: Vec<bool> = (0..8).map(|i| in_even_block(i, 2)).collect();
    assert_eq!(lit, vec![true, true, false, false, true, true, false, false]);
}

#[test]
fn solid_fills_every_pixel() {
    let mut out = vec![0u32; 4];
    fill(&mut out, 7);
    assert_eq!(out, vec![7, 7, 7, 7]);
}

#[test]
fn easing_functions_resolve() {
    assert_eq!(Easings::Linear.function(), EasingFunction::Linear);
    assert_eq!(Easings::Cubic(EasingDirection::Out).function(), EasingFunction::CubicOut);
    assert_eq!(Easings::Bounce(EasingDirection::InOut).function(), EasingFunction::BounceInOut);
    assert_eq!(Easings::Quartic(EasingDirection::InOut).function(), EasingFunction::QuadInOut);
}

#[test]
fn registries_resolve_names() {
    assert_eq!(Registry::node("color-wheel"), Some(NodeKind::ColorWheel));
    assert_eq!(Registry::node("select"), Some(NodeKind::Select));
    assert_eq!(Registry::node("switch"), None);
    assert_eq!(NodeRegistry::lookup("switch"), Some(NodeKind::Switch));
    assert_eq!(NodeRegistry::lookup("select"), None);
    assert_eq!(Registry::free_attr("looper"), None);
    assert_eq!(Registry::bound_attr("looper"), Some(AttrKind::Looper));
    assert_eq!(Registry::free_attr("peak"), Some(AttrKind::Peak));
    assert_eq!(Registry::bound_attr("peak"), Some(AttrKind::Peak));
    assert_eq!(Registry::node(""), None);
    assert_eq!(color_free_attr("color:ok_lch"), Some(ColorSpace::OkLch));
    assert_eq!(color_free_attr("rgb"), None);
}

#[test]
fn random_takes_drawn_values_inside_bounds_only() {
    let rng = rand::rngs::SmallRng::seed_from_u64(7);
    let mut attr = Random::seeded(Bounds::new(0, 9), rng, 4).ok().unwrap();
    assert_eq!(attr.current, 4);
    assert_eq!(attr.take(8), 8);
    assert_eq!(attr.take(10), 8);
    assert_eq!(attr.take(-1), 8);
    let rng = rand::rngs::SmallRng::seed_from_u64(7);
    assert_eq!(Random::seeded(Bounds::new(0, 9), rng, 12).err(), Some(RandomError::EmptyRange));
}

#[test]
fn free_attribute_kinds_are_bound_kinds() {
    for name in ["button", "switch", "fader", "sequence", "peak", "looper", "noise", "random", "other"] {
        if let Some(kind) = Registry::free_attr(name) {
            assert_eq!(Registry::bound_attr(name), Some(kind));
        }
    }
}

#[test]
fn looper_over_a_wide_range() {
    let mut attr = Looper { step: 3 }.materialize(Bounds::new(i64::MIN, 0));
    assert_eq!(attr.min, i64::MIN);
    assert_eq!(attr.max, 1);
    assert_eq!(attr.step, 3);
    assert_eq!(attr.update(false), i64::MIN);
}

#[test]
fn splice_error_messages() {
    let err = calculate_split(11, 10).unwrap_err();
    assert_eq!(err.message(), "Splice split out of bounds: -10 <= 11 <= 10");
    let err = calculate_split(-11, 10).unwrap_err();
    assert_eq!(err.message(), "Splice split out of bounds: -10 <= -11 <= 10");
    assert_eq!(SpliceError::OutOfBounds { split: 1, size: 0 }.message(), "Splice split out of bounds: 0 <= 1 <= 0");
}

#[test]
fn select_fades_to_a_new_selection() {
    let mut state = SelectState::new();
    assert_eq!(state.update(2, false), (Frame::Source(2), false));
    assert_eq!(state.update(2, false), (Frame::Source(2), false));
    assert_eq!(state.update(5, false), (Frame::Source(2), true));
    assert_eq!(state.update(7, false), (Frame::Blend { from: 2, to: 5 }, false));
    assert_eq!(state.update(7, true), (Frame::Source(5), false));
    assert_eq!(state, SelectState { last: Some(5), next: None });
}

#[test]
fn switch_finishes_each_transition() {
    let mut state = SwitchState::new(0);
    assert!(!state.fading());
    assert_eq!(state.update(0, false), (Frame::Source(0), false));
    assert_eq!(state.update(3, false), (Frame::Source(3), true));
    assert!(state.fading());
    assert_eq!(state.update(1, false), (Frame::Blend { from: 0, to: 3 }, false));
    assert_eq!(state.update(1, true), (Frame::Blend { from: 3, to: 3 }, true));
    assert_eq!(state, SwitchState { last: 3, next: 3 });
    assert_eq!(state.update(1, false), (Frame::Source(1), true));
}

#[test]
fn looper_over_reversed_bounds() {
    let attr = Looper { step: 2 }.materialize(Bounds::new(5, 3));
    assert_eq!((attr.min, attr.max, attr.step, attr.current), (5, 4, 2, 5));
    let attr = Looper { step: -3 }.materialize(Bounds::new(5, 2));
    assert_eq!((attr.min, attr.max, attr.step, attr.current), (5, 3, -3, 5));
}
