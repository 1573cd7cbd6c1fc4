use speed_slider::geometry::{Point, Rectangle};
use speed_slider::normal::{Normal, NormalParam, NORMAL_ONE};
use speed_slider::slider::{
    ClickKind, HSlider, Modifiers, ScrollDelta, SliderEvent, State, Status,
};
use speed_slider::snap::{find_closest, SliderMove, SliderStatus};
use speed_slider::speed::{quantized_speed, DEFAULT_QUANTIZED_SPEED_INDEX, QUANTIZED_SPEEDS_LEN};

fn units(normal: f64) -> u32 {
    (normal * NORMAL_ONE as f64).round() as u32
}

// Position of `speed` on a log2 slider spanning 1/8 .. 8.
fn speed_normal(speed: f64) -> f64 {
    (speed.log2() + 3.0) / 6.0
}

fn quantized_normals() -> Vec<u32> {
    (0..QUANTIZED_SPEEDS_LEN)
        .map(|i| {
            let q = quantized_speed(i);
            units(speed_normal(q.numerator as f64 / q.denominator as f64))
        })
        .collect()
}

fn param(value: u32, default: u32) -> NormalParam {
    NormalParam { value: Normal::from_clipped(value as i64), default: Normal::from_clipped(default as i64) }
}

fn bounds() -> Rectangle {
    Rectangle { x: 0, y: 0, width: 64_000, height: 3_000 }
}

#[test]
fn speed_near_one_snaps_to_unit_candidate() {
    let normals = quantized_normals();
    let (index, normal) = find_closest(units(speed_normal(0.9)), &normals);
    assert_eq!(index, 7);
    assert_eq!(index, DEFAULT_QUANTIZED_SPEED_INDEX);
    assert_eq!(normal, NORMAL_ONE / 2);
}

#[test]
fn free_move_commits_shadow_value() {
    let mut slider = HSlider::new(param(500_000_000, 500_000_000));
    let mut state = State::new(slider.normal_param);
    let r = slider.try_move_virtual_slider(&mut state, 100_000_000);
    assert_eq!(r, (SliderStatus::Moved, None));
    assert_eq!(slider.normal_param.value.as_units(), 400_000_000);
    assert_eq!(state.continuous_normal.as_units(), 400_000_000);
}

#[test]
fn zero_delta_changes_nothing() {
    let mut slider = HSlider::new(param(300_000_000, 0));
    let mut state = State::new(slider.normal_param);
    assert_eq!(slider.try_move_virtual_slider(&mut state, 0), (SliderStatus::Unchanged, None));
    assert_eq!(slider.normal_param.value.as_units(), 300_000_000);
}

#[test]
fn move_clamps_at_the_ends() {
    let mut slider = HSlider::new(param(100_000_000, 0));
    let mut state = State::new(slider.normal_param);
    slider.try_move_virtual_slider(&mut state, 5_000_000_000);
    assert_eq!(slider.normal_param.value.as_units(), 0);
    slider.try_move_virtual_slider(&mut state, -5_000_000_000);
    assert_eq!(slider.normal_param.value.as_units(), NORMAL_ONE);
}

#[test]
fn snapping_does_not_report_same_candidate_twice() {
    let normals = quantized_normals();
    let mut slider = HSlider::new(param(NORMAL_ONE / 2, NORMAL_ONE / 2))
        .snap_to_normals(Some((normals.clone(), DEFAULT_QUANTIZED_SPEED_INDEX)));
    let mut state = State::new(slider.normal_param);
    let first = slider.move_virtual_slider(&mut state, SliderMove::Relative(-10_000_000));
    let first = first.expect("first move reports");
    assert_eq!(first.index, Some(7));
    assert_eq!(first.value.as_units(), normals[7]);
    let second = slider.move_virtual_slider(&mut state, SliderMove::Relative(-10_000_000));
    assert_eq!(second, None);
    assert_eq!(slider.normal_param.value.as_units(), normals[7]);
    assert_eq!(state.continuous_normal.as_units(), NORMAL_ONE / 2 + 20_000_000);
}

#[test]
fn snapping_reports_new_candidate_once_crossed() {
    let normals = quantized_normals();
    let mut slider = HSlider::new(param(NORMAL_ONE / 2, NORMAL_ONE / 2))
        .snap_to_normals(Some((normals.clone(), DEFAULT_QUANTIZED_SPEED_INDEX)));
    let mut state = State::new(slider.normal_param);
    let r = slider.try_move_virtual_slider(&mut state, -(NORMAL_ONE as i128) / 6);
    assert_eq!(r, (SliderStatus::Moved, Some(8)));
    assert_eq!(slider.normal_param.value.as_units(), normals[8]);
    let r = slider.try_move_virtual_slider(&mut state, 1);
    assert_eq!(r, (SliderStatus::Unchanged, None));
}

#[test]
fn reset_restores_default_regardless_of_snap_state() {
    let normals = quantized_normals();
    let mut slider = HSlider::new(param(NORMAL_ONE / 2, 200_000_000))
        .snap_to_normals(Some((normals, DEFAULT_QUANTIZED_SPEED_INDEX)));
    let mut state = State::new(slider.normal_param);
    slider.try_move_virtual_slider(&mut state, 300_000_000);
    let change = slider.move_virtual_slider(&mut state, SliderMove::Default).expect("reset reports");
    assert_eq!(change.value.as_units(), 200_000_000);
    assert_eq!(change.index, None);
    assert_eq!(slider.normal_param.value.as_units(), 200_000_000);
}

#[test]
fn double_click_on_handle_resets() {
    let mut slider = HSlider::new(param(NORMAL_ONE / 2, 100_000_000));
    let mut state = State::new(slider.normal_param);
    // handle centre is at 768 + 62464 / 2; its box starts 1856 down
    let on_handle = Some(Point { x: 32_000, y: 2_000 });
    let r = slider.on_event(&mut state, SliderEvent::LeftPressed(ClickKind::Double), bounds(), on_handle);
    assert_eq!(r.status, Status::Captured);
    assert!(r.record_click);
    let change = r.change.expect("reset reports");
    assert_eq!(change.value.as_units(), 100_000_000);
    assert_eq!(change.index, None);
    assert!(!state.is_dragging);
}

#[test]
fn single_click_on_handle_starts_drag() {
    let mut slider = HSlider::new(param(NORMAL_ONE / 2, 0));
    let mut state = State::new(slider.normal_param);
    let r = slider.on_event(&mut state, SliderEvent::LeftPressed(ClickKind::Single), bounds(), Some(Point { x: 32_000, y: 2_000 }));
    assert_eq!(r.status, Status::Captured);
    assert_eq!(r.change, None);
    assert!(state.is_dragging);
    assert_eq!(state.prev_drag_x, 32_000);
}

#[test]
fn drag_moves_by_travel_over_width() {
    let mut slider = HSlider::new(param(NORMAL_ONE / 2, 0));
    let mut state = State::new(slider.normal_param);
    state.is_dragging = true;
    state.prev_drag_x = 32_000;
    let r = slider.on_event(&mut state, SliderEvent::CursorMoved, bounds(), Some(Point { x: 38_400, y: 0 }));
    assert_eq!(r.status, Status::Captured);
    // a tenth of the width at 0.9575 per width
    assert_eq!(slider.normal_param.value.as_units(), 500_000_000 + 95_750_000);
    assert_eq!(state.prev_drag_x, 38_400);
    assert_eq!(r.change.map(|c| c.index), Some(None));
}

#[test]
fn precision_keys_scale_drag() {
    let mut slider = HSlider::new(param(NORMAL_ONE / 2, 0));
    let mut state = State::new(slider.normal_param);
    slider.on_event(&mut state, SliderEvent::ModifiersChanged(Modifiers::ctrl()), bounds(), None);
    state.is_dragging = true;
    state.prev_drag_x = 32_000;
    slider.on_event(&mut state, SliderEvent::CursorMoved, bounds(), Some(Point { x: 38_400, y: 0 }));
    // 95_750_000 scaled by 0.02
    assert_eq!(slider.normal_param.value.as_units(), 500_000_000 + 1_915_000);
}

#[test]
fn cursor_move_without_drag_is_ignored() {
    let mut slider = HSlider::new(param(NORMAL_ONE / 2, 0));
    let mut state = State::new(slider.normal_param);
    let r = slider.on_event(&mut state, SliderEvent::CursorMoved, bounds(), Some(Point { x: 100, y: 0 }));
    assert_eq!(r.status, Status::Ignored);
    assert_eq!(slider.normal_param.value.as_units(), 500_000_000);
}

#[test]
fn zero_width_bounds_do_not_drag() {
    let mut slider = HSlider::new(param(NORMAL_ONE / 2, 0));
    let mut state = State::new(slider.normal_param);
    state.is_dragging = true;
    let empty = Rectangle { x: 0, y: 0, width: 0, height: 100 };
    let r = slider.on_event(&mut state, SliderEvent::CursorMoved, empty, Some(Point { x: 500, y: 0 }));
    assert_eq!(r.status, Status::Ignored);
    assert_eq!(r.change, None);
}

#[test]
fn rail_click_moves_to_point() {
    let mut slider = HSlider::new(param(NORMAL_ONE / 2, 0));
    let mut state = State::new(slider.normal_param);
    let r = slider.on_event(&mut state, SliderEvent::LeftPressed(ClickKind::Single), bounds(), Some(Point { x: 768 + 15_616, y: 1_000 }));
    assert_eq!(r.status, Status::Captured);
    assert!(!r.record_click);
    assert_eq!(slider.normal_param.value.as_units(), 250_000_000);
}

#[test]
fn press_outside_is_ignored() {
    let mut slider = HSlider::new(param(NORMAL_ONE / 2, 0));
    let mut state = State::new(slider.normal_param);
    let r = slider.on_event(&mut state, SliderEvent::LeftPressed(ClickKind::Single), bounds(), Some(Point { x: 100, y: 2_900 }));
    assert_eq!(r.status, Status::Ignored);
    assert_eq!(r.change, None);
}

#[test]
fn wheel_moves_by_scalar_per_line() {
    let mut slider = HSlider::new(param(NORMAL_ONE / 2, 0));
    let mut state = State::new(slider.normal_param);
    let r = slider.on_event(&mut state, SliderEvent::WheelScrolled(ScrollDelta::Lines(1000)), bounds(), Some(Point { x: 10, y: 10 }));
    assert_eq!(r.status, Status::Captured);
    assert_eq!(slider.normal_param.value.as_units(), 510_000_000);
    slider.on_event(&mut state, SliderEvent::WheelScrolled(ScrollDelta::Pixels(-37)), bounds(), Some(Point { x: 10, y: 10 }));
    assert_eq!(slider.normal_param.value.as_units(), 500_000_000);
}

#[test]
fn wheel_off_ignores_scroll() {
    let mut slider = HSlider::new(param(NORMAL_ONE / 2, 0)).wheel_scalar(0);
    let mut state = State::new(slider.normal_param);
    let r = slider.on_event(&mut state, SliderEvent::WheelScrolled(ScrollDelta::Lines(3000)), bounds(), Some(Point { x: 10, y: 10 }));
    assert_eq!(r.status, Status::Ignored);
    assert_eq!(r.change, None);
    assert_eq!(slider.normal_param.value.as_units(), 500_000_000);
}

#[test]
fn wheel_outside_is_ignored() {
    let mut slider = HSlider::new(param(NORMAL_ONE / 2, 0));
    let mut state = State::new(slider.normal_param);
    let r = slider.on_event(&mut state, SliderEvent::WheelScrolled(ScrollDelta::Lines(1000)), bounds(), Some(Point { x: -10, y: 10 }));
    assert_eq!(r.status, Status::Ignored);
}

#[test]
fn release_resyncs_shadow_value() {
    let normals = quantized_normals();
    let mut slider = HSlider::new(param(NORMAL_ONE / 2, 0))
        .snap_to_normals(Some((normals, DEFAULT_QUANTIZED_SPEED_INDEX)));
    let mut state = State::new(slider.normal_param);
    slider.try_move_virtual_slider(&mut state, -30_000_000);
    assert_eq!(state.continuous_normal.as_units(), 530_000_000);
    state.is_dragging = true;
    let r = slider.on_event(&mut state, SliderEvent::LeftReleased, bounds(), None);
    assert_eq!(r.status, Status::Captured);
    assert!(!state.is_dragging);
    assert_eq!(state.continuous_normal, slider.normal_param.value);
}

#[test]
fn builders_set_fields() {
    let m = Modifiers { shift: true, control: false, alt: false, logo: false };
    let s = HSlider::new(NormalParam::default())
        .scalar(1)
        .modifier_scalar(2)
        .modifier_keys(m)
        .text_mark_height(3)
        .rail_height(4);
    assert_eq!(s.scalar, 1);
    assert_eq!(s.modifier_scalar, 2);
    assert_eq!(s.modifier_keys, m);
    assert_eq!(s.text_mark_height, 3);
    assert_eq!(s.rail_height, 4);
    assert!(Modifiers { shift: true, control: true, alt: false, logo: false }.contains(Modifiers::ctrl()));
    assert!(!Modifiers::empty().contains(Modifiers::ctrl()));
}

#[test]
fn extreme_deltas_clamp_with_precision_keys() {
    let mut slider = HSlider::new(param(NORMAL_ONE / 2, 0));
    let mut state = State::new(slider.normal_param);
    state.pressed_modifiers = Modifiers::ctrl();
    slider.try_move_virtual_slider(&mut state, i128::MIN);
    assert_eq!(slider.normal_param.value.as_units(), NORMAL_ONE);
    slider.try_move_virtual_slider(&mut state, i128::MAX);
    assert_eq!(slider.normal_param.value.as_units(), 0);
}

#[test]
fn precision_scaling_rounds_toward_zero() {
    let mut slider = HSlider::new(param(NORMAL_ONE / 2, 0)).modifier_scalar(-20_000);
    let mut state = State::new(slider.normal_param);
    state.pressed_modifiers = Modifiers::ctrl();
    // 99 * -0.02 = -1.98, toward zero -1: the value moves up by one unit
    slider.try_move_virtual_slider(&mut state, 99);
    assert_eq!(slider.normal_param.value.as_units(), NORMAL_ONE / 2 + 1);
    let mut free = HSlider::new(param(NORMAL_ONE / 2, 0));
    let mut free_state = State::new(free.normal_param);
    free.try_move_virtual_slider(&mut free_state, 99);
    assert_eq!(free.normal_param.value.as_units(), NORMAL_ONE / 2 - 99);
}
