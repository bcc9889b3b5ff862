use glfw_ext::{find_dominant_monitor, select_dominant, Monitor, Rectangle, VideoMode, Window, WindowExt};

fn monitor(x: i32, y: i32, width: u32, height: u32) -> Monitor {
    Monitor { x, y, video_mode: Some(VideoMode { width, height }) }
}

fn without_mode(x: i32, y: i32) -> Monitor {
    Monitor { x, y, video_mode: None }
}

fn primary() -> Monitor {
    monitor(0, 0, 1920, 1080)
}

fn secondary() -> Monitor {
    monitor(1920, 0, 1280, 720)
}

#[test]
fn overlap_area_counts_common_pixels() {
    let a = Rectangle { x: 0, y: 0, width: 1920, height: 1080 };
    let b = Rectangle { x: 1500, y: 900, width: 856, height: 482 };
    assert_eq!(a.overlap_area(&b), 420 * 180);
    assert_eq!(b.overlap_area(&a), 420 * 180);
    assert_eq!(a.overlap_area(&a), 1920 * 1080);
}

#[test]
fn overlap_area_of_rectangles_apart_is_zero() {
    let a = Rectangle { x: 0, y: 0, width: 100, height: 100 };
    // apart along both axes: the differences are both negative
    let apart = Rectangle { x: 200, y: 300, width: 50, height: 50 };
    assert_eq!(a.overlap_area(&apart), 0);
    assert_eq!(apart.overlap_area(&a), 0);
    // apart along one axis only
    let beside = Rectangle { x: 200, y: 10, width: 50, height: 50 };
    assert_eq!(a.overlap_area(&beside), 0);
    // sharing an edge
    let touching = Rectangle { x: 100, y: 0, width: 100, height: 100 };
    assert_eq!(a.overlap_area(&touching), 0);
}

#[test]
fn overlap_area_of_largest_rectangles() {
    let a = Rectangle { x: i32::MIN, y: i32::MIN, width: u32::MAX, height: u32::MAX };
    assert_eq!(a.overlap_area(&a), 4_294_967_295 * 4_294_967_295);
    let b = Rectangle { x: i32::MAX, y: i32::MAX, width: u32::MAX, height: u32::MAX };
    assert_eq!(a.overlap_area(&b), 0);
}

#[test]
fn monitor_rectangle_needs_video_mode() {
    assert_eq!(
        secondary().rectangle(),
        Some(Rectangle { x: 1920, y: 0, width: 1280, height: 720 })
    );
    assert_eq!(without_mode(1920, 0).rectangle(), None);
}

#[test]
fn window_rectangle_is_position_and_size() {
    let window = Window { x: -5, y: 7, width: 856, height: 482 };
    assert_eq!(window.rectangle(), Rectangle { x: -5, y: 7, width: 856, height: 482 });
}

#[test]
fn window_within_one_monitor_selects_it() {
    let monitors = [primary(), secondary(), monitor(0, 1080, 1920, 1080)];
    let on_secondary = Rectangle { x: 2000, y: 100, width: 856, height: 482 };
    assert_eq!(select_dominant(&on_secondary, &monitors), Some(1));
    let on_lower = Rectangle { x: 500, y: 1200, width: 856, height: 482 };
    assert_eq!(select_dominant(&on_lower, &monitors), Some(2));
    let on_primary = Rectangle { x: 0, y: 0, width: 1920, height: 1080 };
    assert_eq!(select_dominant(&on_primary, &monitors), Some(0));
}

#[test]
fn window_on_secondary_monitor_is_centered_there() {
    let monitors = [primary(), secondary()];
    let mut window = Window { x: 2000, y: 100, width: 856, height: 482 };
    assert_eq!(select_dominant(&window.rectangle(), &monitors), Some(1));
    assert_eq!(find_dominant_monitor(&window, &monitors), Some(&monitors[1]));
    assert!(window.can_center(&monitors));
    assert!(window.try_center(&monitors));
    assert_eq!(window, Window { x: 2132, y: 119, width: 856, height: 482 });
}

#[test]
fn larger_overlap_wins_in_either_order() {
    // 420 columns on the primary monitor, 436 on the secondary
    let window = Rectangle { x: 1500, y: 100, width: 856, height: 482 };
    assert_eq!(select_dominant(&window, &[primary(), secondary()]), Some(1));
    assert_eq!(select_dominant(&window, &[secondary(), primary()]), Some(0));
    // 456 columns on the primary monitor, 400 on the secondary
    let window = Rectangle { x: 1464, y: 100, width: 856, height: 482 };
    assert_eq!(select_dominant(&window, &[primary(), secondary()]), Some(0));
    assert_eq!(select_dominant(&window, &[secondary(), primary()]), Some(1));
}

#[test]
fn equal_overlap_selects_first_monitor() {
    let left = monitor(0, 0, 1920, 1080);
    let right = monitor(1920, 0, 1920, 1080);
    // centered on the line between the monitors: 428 columns on each
    let window = Window { x: 1920 - 428, y: 300, width: 856, height: 482 };
    assert_eq!(select_dominant(&window.rectangle(), &[left, right]), Some(0));
    assert_eq!(select_dominant(&window.rectangle(), &[right, left]), Some(0));
    assert_eq!(find_dominant_monitor(&window, &[left, right]), Some(&left));
    assert_eq!(find_dominant_monitor(&window, &[right, left]), Some(&right));
}

#[test]
fn equal_overlap_on_stacked_monitors_selects_first_monitor() {
    let upper = monitor(0, 0, 1920, 1080);
    let lower = monitor(0, 1080, 1920, 1080);
    // centered on the line between the monitors: 241 rows on each
    let window = Rectangle { x: 500, y: 1080 - 241, width: 856, height: 482 };
    assert_eq!(upper.rectangle().unwrap().overlap_area(&window), 856 * 241);
    assert_eq!(lower.rectangle().unwrap().overlap_area(&window), 856 * 241);
    assert_eq!(select_dominant(&window, &[upper, lower]), Some(0));
    assert_eq!(select_dominant(&window, &[lower, upper]), Some(0));
}

#[test]
fn equal_overlap_after_smaller_one_selects_first_of_the_equal() {
    let left = monitor(0, 0, 1920, 1080);
    let right = monitor(1920, 0, 1920, 1080);
    let far = monitor(-5000, 0, 1920, 1080);
    let window = Rectangle { x: 1920 - 428, y: 300, width: 856, height: 482 };
    assert_eq!(select_dominant(&window, &[far, right, left]), Some(1));
    assert_eq!(select_dominant(&window, &[far, without_mode(0, 0), left, right]), Some(2));
}

#[test]
fn window_outside_every_monitor_selects_first_with_video_mode() {
    let window = Rectangle { x: -3000, y: -3000, width: 856, height: 482 };
    assert_eq!(select_dominant(&window, &[primary(), secondary()]), Some(0));
    assert_eq!(select_dominant(&window, &[without_mode(0, 0), secondary(), primary()]), Some(1));
}

#[test]
fn empty_window_selects_first_monitor_with_video_mode() {
    let window = Rectangle { x: 2000, y: 100, width: 0, height: 482 };
    assert_eq!(select_dominant(&window, &[primary(), secondary()]), Some(0));
}

#[test]
fn no_monitor_selects_none() {
    let window = Window { x: 0, y: 0, width: 856, height: 482 };
    assert_eq!(select_dominant(&window.rectangle(), &[]), None);
    assert_eq!(find_dominant_monitor(&window, &[]), None);
}

#[test]
fn monitors_without_video_mode_select_none() {
    let window = Window { x: 0, y: 0, width: 856, height: 482 };
    let monitors = [without_mode(0, 0), without_mode(1920, 0)];
    assert_eq!(select_dominant(&window.rectangle(), &monitors), None);
    assert_eq!(find_dominant_monitor(&window, &monitors), None);
}

#[test]
fn monitor_without_video_mode_is_passed_over() {
    let window = Window { x: 100, y: 100, width: 856, height: 482 };
    let monitors = [without_mode(0, 0), secondary()];
    assert_eq!(select_dominant(&window.rectangle(), &monitors), Some(1));
    assert_eq!(find_dominant_monitor(&window, &monitors), Some(&monitors[1]));
}

#[test]
fn try_center_without_usable_monitor_fails() {
    let mut window = Window { x: 10, y: 20, width: 856, height: 482 };
    assert!(window.can_center(&[]));
    assert!(!window.try_center(&[]));
    assert_eq!(window, Window { x: 10, y: 20, width: 856, height: 482 });
    let monitors = [without_mode(0, 0)];
    assert!(window.can_center(&monitors));
    assert!(!window.try_center(&monitors));
    assert_eq!(window, Window { x: 10, y: 20, width: 856, height: 482 });
}

#[test]
fn try_center_moves_window_to_middle_of_dominant_monitor() {
    // 80% of the columns on the secondary monitor
    let mut window = Window { x: 1920 - 100, y: 0, width: 500, height: 400 };
    let monitors = [primary(), secondary()];
    assert!(window.can_center(&monitors));
    assert!(window.try_center(&monitors));
    assert_eq!(window, Window { x: 1920 + 390, y: 160, width: 500, height: 400 });
}

#[test]
fn try_center_succeeds_for_oversized_window() {
    let mut window = Window { x: 0, y: 0, width: 2000, height: 2000 };
    let monitors = [primary()];
    assert!(window.can_center(&monitors));
    assert!(window.try_center(&monitors));
    assert_eq!(window, Window { x: -40, y: -460, width: 2000, height: 2000 });
}

#[test]
fn can_center_looks_at_dominant_monitor_only() {
    let window = Window { x: 0, y: 0, width: 100, height: 100 };
    let near = monitor(0, 0, 1920, 1080);
    let far = monitor(i32::MAX, 0, 1920, 1080);
    assert!(window.can_center(&[near, far]));
    assert!(window.can_center(&[far, near]));
    assert!(!window.can_center(&[far]));
}
