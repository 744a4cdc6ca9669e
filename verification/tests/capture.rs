use screen::capture::{plan_capture, Capture, FULL_HEIGHT, FULL_WIDTH};
use screen::window_locator::WindowRect;

fn rect(left: i32, top: i32, right: i32, bottom: i32) -> WindowRect {
    WindowRect { left, top, right, bottom }
}

#[test]
fn size_of_a_window() {
    let r = rect(-10, 20, 1910, 1100);
    assert!(r.is_well_formed());
    assert_eq!(r.width(), 1920);
    assert_eq!(r.height(), 1080);
    assert!(rect(5, 5, 5, 5).is_well_formed());
    assert_eq!(rect(5, 5, 5, 5).width(), 0);
}

#[test]
fn bounds_without_a_size() {
    assert!(!rect(10, 0, 9, 10).is_well_formed());
    assert!(!rect(0, 10, 10, 9).is_well_formed());
    assert!(!rect(-1, 0, i32::MAX, 10).is_well_formed());
    assert!(!rect(0, i32::MIN, 10, 0).is_well_formed());
    assert!(rect(0, 0, i32::MAX, i32::MAX).is_well_formed());
}

#[test]
fn whole_display_without_window() {
    assert_eq!(plan_capture(None, 2560, 1440), Capture::Whole);
    assert_eq!(plan_capture(None, 1920, 1080), Capture::Whole);
}

#[test]
fn whole_display_up_to_full_size() {
    assert_eq!(FULL_WIDTH, 1920);
    assert_eq!(FULL_HEIGHT, 1080);
    let w = Some(rect(0, 0, 800, 600));
    assert_eq!(plan_capture(w, 1920, 1080), Capture::Whole);
    assert_eq!(plan_capture(w, 1920, 1440), Capture::Whole);
    assert_eq!(plan_capture(w, 2560, 1080), Capture::Whole);
}

#[test]
fn window_on_a_larger_display() {
    let w = Some(rect(100, 50, 2020, 1130));
    assert_eq!(
        plan_capture(w, 2560, 1440),
        Capture::Area { x: 100, y: 50, width: 1920, height: 1080 }
    );
    assert_eq!(
        plan_capture(Some(rect(-5, -7, 1915, 1073)), 1921, 1081),
        Capture::Area { x: -5, y: -7, width: 1920, height: 1080 }
    );
}

#[test]
fn window_as_large_as_the_display() {
    assert_eq!(plan_capture(Some(rect(0, 0, 2560, 1440)), 2560, 1440), Capture::Whole);
    assert_eq!(plan_capture(Some(rect(0, 0, 2560, 1000)), 2560, 1440), Capture::Whole);
    assert_eq!(plan_capture(Some(rect(0, 0, 2000, 1440)), 2560, 1440), Capture::Whole);
}
