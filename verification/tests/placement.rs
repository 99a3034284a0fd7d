use screen_color_picker::placement::{
    enter_pick_mode, exit_pick_mode, place_on_enter, place_on_exit, MonitorGeometry, Origin,
    Placement, Size,
};

fn full_hd() -> MonitorGeometry {
    MonitorGeometry { width: 1920, height: 1080 }
}

#[test]
fn exit_centres_the_default_window_on_full_hd() {
    let (size, origin) = exit_pick_mode(full_hd());
    assert_eq!(size, Size { width: 400, height: 600 });
    assert_eq!(origin, Origin { x: 760, y: 240 });
}

#[test]
fn enter_covers_half_the_monitor_plus_margin() {
    let (size, origin) = enter_pick_mode(full_hd());
    assert_eq!(size, Size { width: 970, height: 550 });
    assert_eq!(origin, Origin { x: -10, y: -10 });
}

#[test]
fn exit_on_a_monitor_smaller_than_the_window_rounds_toward_zero() {
    let (size, origin) = exit_pick_mode(MonitorGeometry { width: 101, height: 0 });
    assert_eq!(size, Size { width: 400, height: 600 });
    assert_eq!(origin, Origin { x: -149, y: -300 });
}

#[test]
fn exit_with_odd_dimensions_drops_the_half_pixel() {
    let (_, origin) = exit_pick_mode(MonitorGeometry { width: 1921, height: 1081 });
    assert_eq!(origin, Origin { x: 760, y: 240 });
}

#[test]
fn placement_of_the_largest_monitor_does_not_overflow() {
    let huge = MonitorGeometry { width: u32::MAX, height: u32::MAX };
    let (size, origin) = enter_pick_mode(huge);
    assert_eq!(size, Size { width: 2147483657, height: 2147483657 });
    assert_eq!(origin, Origin { x: -10, y: -10 });
    let (_, origin) = exit_pick_mode(huge);
    assert_eq!(origin, Origin { x: 2147483447, y: 2147483347 });
}

#[test]
fn missing_monitor_on_enter_keeps_the_placement() {
    let current = Placement {
        size: Size { width: 400, height: 600 },
        origin: Origin { x: 760, y: 240 },
    };
    let once = place_on_enter(current, None);
    assert_eq!(once, current);
    assert_eq!(place_on_enter(once, None), current);
}

#[test]
fn missing_monitor_on_exit_keeps_the_placement() {
    let current = Placement {
        size: Size { width: 970, height: 550 },
        origin: Origin { x: -10, y: -10 },
    };
    assert_eq!(place_on_exit(current, None), current);
}

#[test]
fn known_monitor_replaces_the_placement() {
    let current = Placement {
        size: Size { width: 1, height: 2 },
        origin: Origin { x: 3, y: 4 },
    };
    assert_eq!(
        place_on_enter(current, Some(full_hd())),
        Placement {
            size: Size { width: 970, height: 550 },
            origin: Origin { x: -10, y: -10 },
        }
    );
    assert_eq!(
        place_on_exit(current, Some(full_hd())),
        Placement {
            size: Size { width: 400, height: 600 },
            origin: Origin { x: 760, y: 240 },
        }
    );
}
