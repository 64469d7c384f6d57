use bevy_simple_scroll_view::bounds::max_scroll;
use bevy_simple_scroll_view::fling::fling_update;
use bevy_simple_scroll_view::input::{input_mouse_pressed_move, input_touch_pressed_move};
use bevy_simple_scroll_view::view::{
    Interaction, MouseScrollUnit, MouseWheel, ScrollView, ScrollableContent,
};
use bevy_simple_scroll_view::wheel::scroll_events;

const ONE: i64 = 1_000_000;

fn to_fixed(x: f64) -> i64 {
    (x * 1e6).round() as i64
}

fn decay(friction: f64, dt: f64) -> i64 {
    to_fixed((-friction * dt).exp())
}

#[test]
fn drag_then_release_then_fling() {
    assert_eq!(max_scroll(100 * ONE, 300 * ONE), -200 * ONE);

    let mut view = ScrollView::default();
    let mut contents = vec![ScrollableContent::default()];
    let heights = vec![300 * ONE];

    // press, then move the pointer up by fifty within a tenth of a second
    input_mouse_pressed_move(&mut view, Interaction::Pressed, Some(400 * ONE), to_fixed(0.1), 100 * ONE, &heights);
    input_mouse_pressed_move(&mut view, Interaction::Pressed, Some(350 * ONE), to_fixed(0.1), 100 * ONE, &heights);
    assert_eq!(view.velocity, -250 * ONE);
    assert_eq!(view.max_scroll, -200 * ONE);

    // release
    input_mouse_pressed_move(&mut view, Interaction::Hovered, Some(350 * ONE), to_fixed(0.016), 100 * ONE, &heights);
    assert_eq!(view.old_mouse_y, None);
    assert_eq!(view.velocity, -250 * ONE);

    // the next frame
    let d = (-4.2f64 * 0.016).exp();
    let offset = 0.0 - (-250.0 / 4.2) + (-250.0 / 4.2) * d;
    let velocity = -250.0 * d;
    fling_update(&mut view, &mut contents, decay(4.2, 0.016));
    assert!((view.velocity as f64 / 1e6 - velocity).abs() < 1e-4);
    assert_eq!(view.velocity, -233_752_000);
    let clamped = offset.clamp(-200.0, 0.0);
    assert!((contents[0].pos_y as f64 / 1e6 - clamped).abs() < 1e-4);
    assert!(-200 * ONE <= contents[0].pos_y && contents[0].pos_y <= 0);
    assert_eq!(contents[0].pos_y, 0);
}

#[test]
fn downward_drag_then_fling_from_the_middle() {
    let mut view = ScrollView::default();
    let mut contents = vec![ScrollableContent { pos_y: -100 * ONE }];
    let heights = vec![300 * ONE];
    input_mouse_pressed_move(&mut view, Interaction::Pressed, Some(350 * ONE), to_fixed(0.1), 100 * ONE, &heights);
    input_mouse_pressed_move(&mut view, Interaction::Pressed, Some(400 * ONE), to_fixed(0.1), 100 * ONE, &heights);
    assert_eq!(view.velocity, 250 * ONE);
    input_mouse_pressed_move(&mut view, Interaction::Untouched, Some(400 * ONE), to_fixed(0.016), 100 * ONE, &heights);

    let d = (-4.2f64 * 0.016).exp();
    let offset = -100.0 - 250.0 / 4.2 + 250.0 / 4.2 * d;
    fling_update(&mut view, &mut contents, decay(4.2, 0.016));
    assert!((contents[0].pos_y as f64 / 1e6 - offset).abs() < 1e-4);
    assert_eq!(contents[0].pos_y, -103_868_572);
    assert_eq!(view.velocity, 233_752_000);
}

#[test]
fn fitting_content_never_moves() {
    assert_eq!(max_scroll(100 * ONE, 100 * ONE), 0);

    let mut view = ScrollView::default();
    let mut contents = vec![ScrollableContent::default()];
    let heights = vec![100 * ONE];
    let mut y = 400 * ONE;
    for step in [0, -50, 80, -120, 7, 300] {
        y += step * ONE;
        input_mouse_pressed_move(&mut view, Interaction::Pressed, Some(y), to_fixed(0.016), 100 * ONE, &heights);
        assert_eq!(view.max_scroll, 0);
        fling_update(&mut view, &mut contents, decay(4.2, 0.016));
        assert_eq!(contents[0].pos_y, 0);
    }
    input_mouse_pressed_move(&mut view, Interaction::Untouched, Some(y), to_fixed(0.016), 100 * ONE, &heights);
    for _ in 0..200 {
        fling_update(&mut view, &mut contents, decay(4.2, 0.016));
        assert_eq!(contents[0].pos_y, 0);
    }
    assert_eq!(view.velocity, 0);

    input_touch_pressed_move(&mut view, Interaction::Pressed, &vec![-90 * ONE], to_fixed(0.016), 100 * ONE, &heights);
    fling_update(&mut view, &mut contents, decay(4.2, 0.016));
    assert_eq!(contents[0].pos_y, 0);

    let wheel = vec![
        MouseWheel { unit: MouseScrollUnit::Pixel, y: -5 * ONE },
        MouseWheel { unit: MouseScrollUnit::Line, y: 3 * ONE },
    ];
    scroll_events(&mut contents[0], &view, Interaction::Hovered, &wheel, to_fixed(0.016), 100 * ONE, 100 * ONE);
    assert_eq!(contents[0].pos_y, 0);
}

#[test]
fn wheel_in_pixels_moves_by_sixteen() {
    let view = ScrollView::default();
    assert_eq!(view.scroll_speed, 200 * ONE);
    let event = MouseWheel { unit: MouseScrollUnit::Pixel, y: 5 * ONE };

    let mut content = ScrollableContent { pos_y: -100 * ONE };
    scroll_events(&mut content, &view, Interaction::Hovered, &vec![event], to_fixed(0.016), 100 * ONE, 300 * ONE);
    assert_eq!(content.pos_y, -84 * ONE);

    // from the top the same step is clamped away
    let mut content = ScrollableContent { pos_y: 0 };
    scroll_events(&mut content, &view, Interaction::Hovered, &vec![event], to_fixed(0.016), 100 * ONE, 300 * ONE);
    assert_eq!(content.pos_y, 0);

    // and near the top it stops there
    let mut content = ScrollableContent { pos_y: -10 * ONE };
    scroll_events(&mut content, &view, Interaction::Hovered, &vec![event], to_fixed(0.016), 100 * ONE, 300 * ONE);
    assert_eq!(content.pos_y, 0);
}

#[test]
fn velocity_of_exactly_sixteen_stops() {
    let mut view = ScrollView::default();
    view.velocity = 16 * ONE;
    view.max_scroll = -200 * ONE;
    let mut contents = vec![ScrollableContent { pos_y: -100 * ONE }];
    fling_update(&mut view, &mut contents, decay(4.2, 0.016));
    assert_eq!(view.velocity, 0);
    assert_eq!(contents[0].pos_y, -100 * ONE);

    view.velocity = -16 * ONE;
    fling_update(&mut view, &mut contents, decay(4.2, 0.016));
    assert_eq!(view.velocity, 0);
    assert_eq!(contents[0].pos_y, -100 * ONE);
}
