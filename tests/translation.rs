use sub_gui::geometry::{Pos, Rect, COORD_LIMIT, STEPS_PER_POINT};
use sub_gui::input::{FrameInput, InputEvent, Modifiers, PointerButton};
use sub_gui::view::{extent_in_steps, Resolution, Viewer, DENSITY_STEPS};

/// A position given in whole points.
fn at(x: i64, y: i64) -> Pos {
    Pos { x: x * STEPS_PER_POINT, y: y * STEPS_PER_POINT }
}

/// A density given in whole pixels per point.
fn density(pixels_per_point: u32) -> u32 {
    pixels_per_point * DENSITY_STEPS as u32
}

fn no_modifiers() -> Modifiers {
    Modifiers { alt: false, ctrl: false, shift: false, mac_cmd: false, command: false }
}

fn frame(events: Vec<InputEvent>) -> FrameInput {
    FrameInput { screen_rect: None, events }
}

#[test]
fn pointer_position_is_taken_relative_to_display_origin() {
    let viewer = Viewer::new();
    assert_eq!(viewer.resolution, Resolution { width: 640, height: 480 });
    let mut input = frame(vec![InputEvent::PointerMoved(at(100, 130))]);
    let dims = viewer.prepare_frame(&mut input, at(50, 80), density(1));
    assert_eq!(dims, Resolution { width: 640, height: 480 });
    assert_eq!(input.events, vec![InputEvent::PointerMoved(at(50, 50))]);
}

#[test]
fn resize_mid_session_changes_render_size_and_screen() {
    let mut viewer = Viewer::new();
    let mut first = frame(vec![]);
    assert_eq!(
        viewer.prepare_frame(&mut first, at(0, 0), density(1)),
        Resolution { width: 640, height: 480 }
    );
    assert_eq!(first.screen_rect, Some(Rect { min: at(0, 0), max: at(640, 480) }));

    viewer.set_resolution(Resolution { width: 800, height: 600 });
    let mut next = frame(vec![]);
    let dims = viewer.prepare_frame(&mut next, at(0, 0), density(1));
    assert_eq!(dims, Resolution { width: 800, height: 600 });
    assert_eq!(next.screen_rect, Some(Rect { min: at(0, 0), max: at(800, 600) }));

    let mut dense = frame(vec![]);
    let dims = viewer.prepare_frame(&mut dense, at(0, 0), density(2));
    assert_eq!(dims, Resolution { width: 800, height: 600 });
    assert_eq!(dense.screen_rect, Some(Rect { min: at(0, 0), max: at(400, 300) }));
}

#[test]
fn pointer_outside_view_goes_negative_unclamped() {
    let viewer = Viewer::new();
    let mut input = frame(vec![
        InputEvent::PointerMoved(at(10, 20)),
        InputEvent::PointerMoved(at(2000, 1000)),
    ]);
    viewer.prepare_frame(&mut input, at(50, 80), density(1));
    assert_eq!(
        input.events,
        vec![InputEvent::PointerMoved(at(-40, -60)), InputEvent::PointerMoved(at(1950, 920))]
    );
}

#[test]
fn button_event_keeps_all_but_its_position() {
    let viewer = Viewer::new();
    let modifiers = Modifiers { alt: true, ctrl: false, shift: true, mac_cmd: false, command: true };
    let mut input = frame(vec![
        InputEvent::Other,
        InputEvent::PointerButton {
            pos: Pos { x: 300, y: -7 },
            button: PointerButton::Secondary,
            pressed: true,
            modifiers,
        },
        InputEvent::Other,
    ]);
    viewer.prepare_frame(&mut input, Pos { x: 100, y: 3 }, density(1));
    assert_eq!(
        input.events,
        vec![
            InputEvent::Other,
            InputEvent::PointerButton {
                pos: Pos { x: 200, y: -10 },
                button: PointerButton::Secondary,
                pressed: true,
                modifiers,
            },
            InputEvent::Other,
        ]
    );
}

#[test]
fn translation_subtracts_origin_in_each_event() {
    let mut input = frame(vec![
        InputEvent::PointerMoved(Pos { x: 5, y: 9 }),
        InputEvent::PointerButton {
            pos: Pos { x: -3, y: 4 },
            button: PointerButton::Primary,
            pressed: false,
            modifiers: no_modifiers(),
        },
    ]);
    let screen = Rect { min: at(0, 0), max: at(1, 1) };
    input.translate(Pos { x: 7, y: -2 }, screen);
    assert_eq!(input.screen_rect, Some(screen));
    assert_eq!(
        input.events,
        vec![
            InputEvent::PointerMoved(Pos { x: -2, y: 11 }),
            InputEvent::PointerButton {
                pos: Pos { x: -10, y: 6 },
                button: PointerButton::Primary,
                pressed: false,
                modifiers: no_modifiers(),
            },
        ]
    );
}

#[test]
fn screen_rect_does_not_depend_on_origin() {
    let viewer = Viewer::new();
    let mut a = frame(vec![InputEvent::Other]);
    let mut b = frame(vec![InputEvent::Other]);
    viewer.prepare_frame(&mut a, at(0, 0), density(3));
    viewer.prepare_frame(&mut b, at(-900, 4000), density(3));
    assert_eq!(a.screen_rect, b.screen_rect);
    // 640 / 3 and 480 / 3 points, in steps, rounded down.
    assert_eq!(a.screen_rect, Some(Rect::from_size(54613, 40960)));
}

#[test]
fn existing_screen_rect_is_replaced() {
    let viewer = Viewer::new();
    let mut input = FrameInput {
        screen_rect: Some(Rect { min: at(12, 13), max: at(1920, 1080) }),
        events: vec![],
    };
    viewer.prepare_frame(&mut input, at(12, 13), density(1));
    assert_eq!(input.screen_rect, Some(Rect { min: at(0, 0), max: at(640, 480) }));
    assert!(input.events.is_empty());
}

#[test]
fn zero_resolution_is_passed_through() {
    let mut viewer = Viewer::new();
    viewer.set_resolution(Resolution { width: 0, height: 0 });
    let mut input = frame(vec![]);
    let dims = viewer.prepare_frame(&mut input, at(3, 3), density(1));
    assert_eq!(dims, Resolution { width: 0, height: 0 });
    assert_eq!(input.screen_rect, Some(Rect::from_size(0, 0)));
    assert_eq!(viewer.display_size(density(1)), (0, 0));
}

#[test]
fn extent_divides_by_density() {
    assert_eq!(extent_in_steps(640, 256), 640 * 256);
    assert_eq!(extent_in_steps(640, 512), 320 * 256);
    // 1.5 pixels per point.
    assert_eq!(extent_in_steps(300, 384), 200 * 256);
    // Rounded down: 65536 / 768.
    assert_eq!(extent_in_steps(1, 768), 85);
    assert_eq!(extent_in_steps(u32::MAX, 1), u32::MAX as i64 * 65536);
}

#[test]
fn display_size_matches_resolution_over_density() {
    let mut viewer = Viewer::new();
    assert_eq!(viewer.display_size(density(1)), (640 * 256, 480 * 256));
    assert_eq!(viewer.display_size(density(2)), (320 * 256, 240 * 256));
    viewer.set_resolution(Resolution { width: 1024, height: 768 });
    assert_eq!(viewer.display_size(density(4)), (256 * 256, 192 * 256));
}

#[test]
fn relative_to_subtracts_each_coordinate() {
    assert_eq!(Pos { x: 10, y: -4 }.relative_to(Pos { x: 3, y: 6 }), Pos { x: 7, y: -10 });
    let far = Pos { x: COORD_LIMIT - 1, y: -(COORD_LIMIT - 1) };
    assert_eq!(far.relative_to(Pos { x: -(COORD_LIMIT - 1), y: COORD_LIMIT - 1 }), Pos {
        x: 2 * (COORD_LIMIT - 1),
        y: -2 * (COORD_LIMIT - 1)
    });
}

#[test]
fn range_checks() {
    assert!(Pos { x: COORD_LIMIT - 1, y: -(COORD_LIMIT - 1) }.is_in_range());
    assert!(!Pos { x: COORD_LIMIT, y: 0 }.is_in_range());
    assert!(!Pos { x: 0, y: -COORD_LIMIT }.is_in_range());
    assert!(InputEvent::Other.is_in_range());
    assert!(frame(vec![InputEvent::Other, InputEvent::PointerMoved(at(1, 1))]).is_in_range());
    assert!(!frame(vec![
        InputEvent::PointerMoved(at(1, 1)),
        InputEvent::PointerButton {
            pos: Pos { x: i64::MIN, y: 0 },
            button: PointerButton::Middle,
            pressed: true,
            modifiers: no_modifiers(),
        },
    ])
    .is_in_range());
}
