use kolibri_embedded_gui::geometry::{Point, Rectangle, Size};
use kolibri_embedded_gui::interaction::{
    classify, Bucket, Interaction, PointerSample, PointerState,
};

fn widget() -> Rectangle {
    Rectangle::new(Point::new(10, 20), Size::new(30, 40))
}

fn run(area: &Rectangle, samples: &[PointerSample]) -> Vec<Interaction> {
    let mut state = PointerState::new();
    let mut outcomes = Vec::new();
    for sample in samples {
        outcomes.push(classify(area, sample, &state));
        state.advance(*sample);
    }
    outcomes
}

#[test]
fn rectangle_contains_its_top_left_but_not_its_far_edges() {
    let area = widget();
    assert!(area.contains(Point::new(10, 20)));
    assert!(area.contains(Point::new(39, 59)));
    assert!(!area.contains(Point::new(40, 59)));
    assert!(!area.contains(Point::new(39, 60)));
    assert!(!area.contains(Point::new(9, 20)));
    assert!(!area.contains(Point::new(10, 19)));
}

#[test]
fn empty_rectangle_contains_nothing() {
    let flat = Rectangle::new(Point::new(3, 3), Size::new(5, 0));
    let thin = Rectangle::new(Point::new(3, 3), Size::new(0, 5));
    assert!(flat.is_zero_sized());
    assert!(thin.is_zero_sized());
    assert!(!flat.contains(Point::new(3, 3)));
    assert!(!thin.contains(Point::new(3, 3)));
    assert!(!widget().is_zero_sized());
}

#[test]
fn rectangle_at_the_edge_of_the_coordinate_range() {
    let far = Rectangle::new(Point::new(i32::MAX, i32::MAX), Size::new(u32::MAX, u32::MAX));
    assert!(far.contains(Point::new(i32::MAX, i32::MAX)));
    let near = Rectangle::new(Point::new(i32::MIN, i32::MIN), Size::new(1, 1));
    assert!(near.contains(Point::new(i32::MIN, i32::MIN)));
    assert!(!near.contains(Point::new(i32::MIN + 1, i32::MIN)));
}

#[test]
fn pointer_elsewhere_is_idle() {
    let area = widget();
    let state = PointerState::new();
    for down in [false, true] {
        let sample = PointerSample::new(Point::new(0, 0), down);
        assert_eq!(classify(&area, &sample, &state), Interaction::Idle);
    }
}

#[test]
fn pointer_resting_inside_hovers() {
    let inside = PointerSample::new(Point::new(15, 25), false);
    assert_eq!(
        run(&widget(), &[inside, inside]),
        vec![Interaction::Hovered, Interaction::Hovered]
    );
}

#[test]
fn click_sequence_releases_on_the_up_frame_only() {
    let outside = PointerSample::new(Point::new(0, 0), false);
    let press = PointerSample::new(Point::new(15, 25), true);
    let release = PointerSample::new(Point::new(15, 25), false);
    let outcomes = run(&widget(), &[outside, press, release, release]);
    assert_eq!(
        outcomes,
        vec![
            Interaction::Idle,
            Interaction::Pressed,
            Interaction::Released,
            Interaction::Hovered
        ]
    );
    let clicks: Vec<bool> = outcomes.iter().map(|o| o.is_click()).collect();
    assert_eq!(clicks, vec![false, false, true, false]);
}

#[test]
fn press_drag_release() {
    let start = PointerSample::new(Point::new(15, 25), true);
    let moved = PointerSample::new(Point::new(16, 25), true);
    let up = PointerSample::new(Point::new(16, 25), false);
    assert_eq!(
        run(&widget(), &[start, moved, up]),
        vec![Interaction::Pressed, Interaction::Dragged, Interaction::Released]
    );
}

#[test]
fn held_without_moving_stays_pressed() {
    let press = PointerSample::new(Point::new(15, 25), true);
    assert_eq!(
        run(&widget(), &[press, press, press]),
        vec![Interaction::Pressed, Interaction::Pressed, Interaction::Pressed]
    );
}

#[test]
fn drag_back_to_the_origin_is_pressed_again() {
    let start = PointerSample::new(Point::new(15, 25), true);
    let moved = PointerSample::new(Point::new(20, 30), true);
    assert_eq!(
        run(&widget(), &[start, moved, start]),
        vec![Interaction::Pressed, Interaction::Dragged, Interaction::Pressed]
    );
}

#[test]
fn press_that_enters_from_outside_is_pressed_first() {
    let outside = PointerSample::new(Point::new(0, 0), true);
    let entered = PointerSample::new(Point::new(15, 25), true);
    assert_eq!(
        run(&widget(), &[outside, entered, entered]),
        vec![Interaction::Idle, Interaction::Pressed, Interaction::Dragged]
    );
}

#[test]
fn release_outside_is_idle() {
    let press = PointerSample::new(Point::new(15, 25), true);
    let away = PointerSample::new(Point::new(0, 0), false);
    assert_eq!(
        run(&widget(), &[press, away]),
        vec![Interaction::Pressed, Interaction::Idle]
    );
}

#[test]
fn advance_keeps_the_origin_while_the_button_is_held() {
    let mut state = PointerState::new();
    assert!(!state.down);
    state.advance(PointerSample::new(Point::new(1, 2), false));
    assert_eq!(state.origin, Point::new(1, 2));
    state.advance(PointerSample::new(Point::new(3, 4), true));
    assert_eq!(state.origin, Point::new(3, 4));
    state.advance(PointerSample::new(Point::new(5, 6), true));
    assert_eq!(state.origin, Point::new(3, 4));
    assert_eq!(state.position, Point::new(5, 6));
    assert!(state.down);
    state.advance(PointerSample::new(Point::new(7, 8), false));
    assert_eq!(state.origin, Point::new(7, 8));
    assert!(!state.down);
}

#[test]
fn buckets_and_flags() {
    assert_eq!(Interaction::Idle.bucket(), Bucket::Idle);
    assert_eq!(Interaction::Hovered.bucket(), Bucket::Hover);
    assert_eq!(Interaction::Pressed.bucket(), Bucket::Active);
    assert_eq!(Interaction::Dragged.bucket(), Bucket::Active);
    assert_eq!(Interaction::Released.bucket(), Bucket::Active);
    assert!(Interaction::Pressed.is_down());
    assert!(Interaction::Dragged.is_down());
    assert!(!Interaction::Released.is_down());
    assert!(!Interaction::Hovered.is_down());
    assert!(!Interaction::Idle.is_down());
    assert!(Interaction::Released.is_click());
    assert!(!Interaction::Pressed.is_click());
}
