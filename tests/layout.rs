use speed_slider::geometry::{
    get_frame_rail_bounds, get_handle_bounds, get_handle_position, get_text_and_rail_bounds,
    handle_triangle, mouse_interaction, position_over, text_mark_offsets, tick_marks, Interaction,
    Marker, Point, Rectangle, Size,
};
use speed_slider::normal::Normal;
use speed_slider::speed::{
    generate_markers, generate_tick_normals, quantized_speed, quantized_speeds, MarkWeight,
    QUANTIZED_SPEEDS_LEN,
};
use speed_slider::theme::{CheckboxStyle, HSliderStyleType, TextStyle, Theme};

fn handle() -> Size {
    Size { width: 24, height: 14 }
}

#[test]
fn rail_bounds_leave_half_a_handle_each_side() {
    let r = get_frame_rail_bounds(Size { width: 224, height: 40 }, handle(), 18, 8);
    assert_eq!(r, Rectangle { x: 12, y: 18, width: 200, height: 8 });
    let t = get_text_and_rail_bounds(Rectangle { x: 5, y: 6, width: 224, height: 40 }, handle(), 18, 8);
    assert_eq!(t, Rectangle { x: 17, y: 6, width: 200, height: 26 });
}

#[test]
fn handle_sits_over_value_below_rail() {
    let size = Size { width: 224, height: 40 };
    let p = get_handle_position(size, Normal::center(), handle(), 18, 8);
    assert_eq!(p, Point { x: 112, y: 18 + 8 + 3 * 64 });
    let b = get_handle_bounds(Rectangle { x: 10, y: 20, width: 224, height: 40 }, Normal::maximum(), handle(), 18, 8);
    assert_eq!(b, Rectangle { x: 10 + 212 - 12, y: 20 + 18 + 8 + 192, width: 24, height: 14 });
}

#[test]
fn handle_is_upward_triangle() {
    let t = handle_triangle(Point { x: 100, y: 50 }, handle());
    assert_eq!(t, [Point { x: 112, y: 64 }, Point { x: 88, y: 64 }, Point { x: 100, y: 50 }]);
}

#[test]
fn marks_follow_marker_positions() {
    let markers = vec![
        Marker { position: Normal::minimum(), label: Some("a".to_string()), weight: Some(MarkWeight::Bold) },
        Marker { position: Normal::center(), label: None, weight: Some(MarkWeight::Normal) },
        Marker { position: Normal::maximum(), label: Some("b".to_string()), weight: None },
    ];
    let size = Size { width: 224, height: 40 };
    let ticks = tick_marks(size, 2, handle(), 18, 8, &markers);
    assert_eq!(ticks.len(), 3);
    let t0 = ticks[0].unwrap();
    assert_eq!(t0.bounds, Rectangle { x: 11, y: 18, width: 2, height: 8 });
    assert_eq!(t0.weight, MarkWeight::Bold);
    let t1 = ticks[1].unwrap();
    assert_eq!(t1.bounds.x, 111);
    assert_eq!(t1.weight, MarkWeight::Normal);
    assert!(ticks[2].is_none());
    let texts = text_mark_offsets(size, handle(), 18, 8, &markers);
    assert_eq!(texts, vec![Some(12), None, Some(212)]);
}

#[test]
fn pointer_only_over_widget() {
    let b = Rectangle { x: 10, y: 10, width: 100, height: 20 };
    assert_eq!(mouse_interaction(b, Some(Point { x: 50, y: 15 })), Interaction::Pointer);
    assert_eq!(mouse_interaction(b, Some(Point { x: 5, y: 15 })), Interaction::Idle);
    assert_eq!(mouse_interaction(b, None), Interaction::Idle);
    assert_eq!(mouse_interaction(Rectangle { x: 0, y: 0, width: 5, height: 5 }, None), Interaction::Idle);
    assert_eq!(mouse_interaction(Rectangle { x: 0, y: 0, width: 5, height: 5 }, Some(Point { x: 0, y: 0 })), Interaction::Pointer);
    assert_eq!(position_over(Some(Point { x: 110, y: 30 }), b), Some(Point { x: 110, y: 30 }));
    assert_eq!(position_over(Some(Point { x: 111, y: 30 }), b), None);
}

#[test]
fn quantized_table_entries() {
    let one = quantized_speed(7);
    assert_eq!((one.numerator, one.denominator), (1, 1));
    assert_eq!(one.text, "1");
    assert_eq!(one.mark_weight, Some(MarkWeight::Bold));
    let eighth = quantized_speed(0);
    assert_eq!((eighth.numerator, eighth.denominator), (1, 8));
    assert_eq!(eighth.text_mark, Some("\u{f7}8"));
    let four = quantized_speed(10);
    assert_eq!(four.text, "x4");
    assert_eq!(four.text_mark, None);
    let all = quantized_speeds();
    assert_eq!(all.len(), QUANTIZED_SPEEDS_LEN);
    assert_eq!((all[14].numerator, all[14].denominator), (8, 1));
}

#[test]
fn markers_from_table() {
    let normals: Vec<i64> = (0..15).map(|i| i * 10).collect();
    let markers = generate_markers(&normals);
    assert_eq!(markers.len(), 15);
    assert_eq!(markers[6].label.as_deref(), Some("\u{f7}2"));
    assert_eq!(markers[8].label.as_deref(), Some("x2"));
    assert_eq!(markers[9].label, None);
    assert_eq!(markers[14].weight, Some(MarkWeight::Bold));
    assert_eq!(markers[3].position.as_units(), 30);
    let ticks = generate_tick_normals(&vec![-4, 7, 3_000_000_000]);
    assert_eq!(ticks.iter().map(|n| n.as_units()).collect::<Vec<_>>(), vec![0, 7, 1_000_000_000]);
}

#[test]
fn style_defaults() {
    assert_eq!(Theme::default(), Theme::Dark);
    assert_eq!(HSliderStyleType::default(), HSliderStyleType::Classic);
    assert!(matches!(TextStyle::default(), TextStyle::Default));
    assert!(matches!(CheckboxStyle::default(), CheckboxStyle::Default));
}
