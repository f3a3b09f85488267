use color_view::coords::Cylindrical;
use color_view::pick::{resolve, PickSample, PickTag};
use color_view::selection::SelectionState;

fn cyl(angle: f32, radius: f32, height: f32) -> Cylindrical<f32> {
    Cylindrical::new(angle, radius, height)
}

fn state(current: Cylindrical<f32>, saved: Cylindrical<f32>) -> SelectionState<f32> {
    SelectionState { current, saved }
}

#[test]
fn saturation_handle_changes_radius_only() {
    let mut s = state(cyl(0.25, 0.5, 0.7), cyl(0.0, 1.0, 1.0));
    let sample = PickSample { coordinate: cyl(0.9, 0.1, 0.3), tag: PickTag::from_code(2) };
    let committed = s.update(&sample, false);
    assert_eq!(s.current, cyl(0.25, 0.1, 0.7));
    assert_eq!(s.saved, cyl(0.0, 1.0, 1.0));
    assert_eq!(committed, None);
}

#[test]
fn hue_handle_changes_angle_only() {
    let prev = cyl(0.25, 0.5, 0.7);
    let saved = cyl(0.0, 1.0, 1.0);
    let sample = PickSample { coordinate: cyl(0.9, 0.1, 0.3), tag: PickTag::Hue };
    assert_eq!(resolve(&sample, &prev, &saved), cyl(0.9, 0.5, 0.7));
}

#[test]
fn value_handle_changes_height_only() {
    let prev = cyl(0.25, 0.5, 0.7);
    let saved = cyl(0.0, 1.0, 1.0);
    let sample = PickSample { coordinate: cyl(0.9, 0.1, 0.3), tag: PickTag::Value };
    assert_eq!(resolve(&sample, &prev, &saved), cyl(0.25, 0.5, 0.3));
}

#[test]
fn miss_falls_back_to_saved() {
    for code in [0u8, 4, 5, 6, 8, 255] {
        let mut s = state(cyl(0.25, 0.5, 0.7), cyl(0.1, 0.2, 0.3));
        let sample = PickSample { coordinate: cyl(0.9, 0.9, 0.9), tag: PickTag::from_code(code) };
        s.update(&sample, false);
        assert_eq!(s.current, cyl(0.1, 0.2, 0.3));
        assert_eq!(s.saved, cyl(0.1, 0.2, 0.3));
    }
}

#[test]
fn press_commits_resolved_coordinate() {
    let mut s = state(cyl(0.25, 0.5, 0.7), cyl(0.1, 0.2, 0.3));
    let sample = PickSample { coordinate: cyl(0.9, 0.1, 0.3), tag: PickTag::Saturation };
    let committed = s.update(&sample, true);
    assert_eq!(s.current, cyl(0.25, 0.1, 0.7));
    assert_eq!(s.saved, cyl(0.25, 0.1, 0.7));
    assert_eq!(committed, Some(cyl(0.25, 0.1, 0.7)));
}

#[test]
fn no_press_keeps_saved() {
    let mut s = state(cyl(0.25, 0.5, 0.7), cyl(0.1, 0.2, 0.3));
    let sample = PickSample { coordinate: cyl(0.6, 0.4, 0.2), tag: PickTag::Volume };
    s.update(&sample, false);
    assert_eq!(s.current, cyl(0.6, 0.4, 0.2));
    assert_eq!(s.saved, cyl(0.1, 0.2, 0.3));
}

#[test]
fn press_on_miss_commits_saved_again() {
    let mut s = state(cyl(0.25, 0.5, 0.7), cyl(0.1, 0.2, 0.3));
    let sample = PickSample { coordinate: cyl(0.6, 0.4, 0.2), tag: PickTag::Background };
    let committed = s.update(&sample, true);
    assert_eq!(committed, Some(cyl(0.1, 0.2, 0.3)));
    assert_eq!(s.current, cyl(0.1, 0.2, 0.3));
}

#[test]
fn volume_pick_takes_whole_sample() {
    let mut s = state(cyl(0.25, 0.5, 0.7), cyl(0.1, 0.2, 0.3));
    let sample = PickSample { coordinate: cyl(0.125, 0.875, 0.5), tag: PickTag::from_code(7) };
    s.update(&sample, false);
    assert_eq!(s.current, cyl(0.125, 0.875, 0.5));
}

#[test]
fn repeated_update_without_press_is_stable() {
    let tags = [PickTag::Background, PickTag::Hue, PickTag::Saturation, PickTag::Value, PickTag::Volume];
    for tag in tags {
        let mut s = state(cyl(0.25, 0.5, 0.7), cyl(0.1, 0.2, 0.3));
        let sample = PickSample { coordinate: cyl(0.9, 0.1, 0.3), tag };
        s.update(&sample, false);
        let once = s;
        s.update(&sample, false);
        assert_eq!(s, once);
    }
}

#[test]
fn new_state_hovers_and_commits_initial() {
    let s = SelectionState::new(cyl(0.0, 1.0, 1.0));
    assert_eq!(s.current, cyl(0.0, 1.0, 1.0));
    assert_eq!(s.saved, cyl(0.0, 1.0, 1.0));
}

#[test]
fn tag_codes() {
    assert_eq!(PickTag::from_code(0), PickTag::Background);
    assert_eq!(PickTag::from_code(1), PickTag::Hue);
    assert_eq!(PickTag::from_code(2), PickTag::Saturation);
    assert_eq!(PickTag::from_code(3), PickTag::Value);
    assert_eq!(PickTag::from_code(7), PickTag::Volume);
    assert_eq!(PickTag::from_code(9), PickTag::Background);
    assert_eq!(PickTag::Background.code(), 0);
    assert_eq!(PickTag::Hue.code(), 1);
    assert_eq!(PickTag::Saturation.code(), 2);
    assert_eq!(PickTag::Value.code(), 3);
    assert_eq!(PickTag::Volume.code(), 7);
    for tag in [PickTag::Background, PickTag::Hue, PickTag::Saturation, PickTag::Value, PickTag::Volume] {
        assert_eq!(PickTag::from_code(tag.code()), tag);
    }
}
