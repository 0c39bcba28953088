use top_down_camera::mouse::ButtonEvent;
use top_down_camera::mouse::ButtonState;
use top_down_camera::mouse::CursorPos;
use top_down_camera::mouse::EdgeAction;
use top_down_camera::mouse::EdgeScrollPlan;
use top_down_camera::mouse::MouseButton;
use top_down_camera::mouse::MouseDelta;
use top_down_camera::mouse::Ratio;
use top_down_camera::mouse::Sign;
use top_down_camera::mouse::WindowSize;
use top_down_camera::mouse::YawStep;
use top_down_camera::mouse::mode_switch;
use top_down_camera::mouse::move_on_edges;
use top_down_camera::mouse::zoom;
use top_down_camera::mouse::zoom_condition;
use top_down_camera::CameraMode;
use top_down_camera::TopDownCamera;
use top_down_camera::UNIT;

const W: WindowSize = WindowSize { width: 800 * UNIT, height: 600 * UNIT };

fn no_motion() -> MouseDelta {
    MouseDelta { x: 0, y: 0 }
}

#[test]
fn default_configuration() {
    let cam = TopDownCamera::default();
    assert!(!cam.follow);
    assert!(cam.cursor_enabled);
    assert_eq!(cam.cursor_edge_margin.x, 30 * UNIT);
    assert_eq!(cam.cursor_edge_margin.y, 30 * UNIT);
    assert!(cam.zoom_enabled);
    assert_eq!(cam.zoom.min, 5 * UNIT);
    assert_eq!(cam.zoom.max, 50 * UNIT);
    assert_eq!(cam.zoom.speed, 10 * UNIT);
    assert_eq!(cam.height.min, 5 * UNIT);
    assert_eq!(cam.height.max, 50 * UNIT);
    assert_eq!(cam.max_speed, 200 * UNIT);
    assert_eq!(cam.rotate_speed, UNIT / 100);
    assert_eq!(cam.mode, CameraMode::Move);
    assert!(!cam.initial_setup);
}

#[test]
fn press_then_release_in_one_frame_ends_in_move() {
    let mut cam = TopDownCamera::default();
    let events = vec![
        ButtonEvent { button: MouseButton::Right, state: ButtonState::Pressed },
        ButtonEvent { button: MouseButton::Right, state: ButtonState::Released },
    ];
    mode_switch(&mut cam, &events);
    assert_eq!(cam.mode, CameraMode::Move);
}

#[test]
fn right_press_switches_to_rotate() {
    let mut cam = TopDownCamera::default();
    let events = vec![ButtonEvent { button: MouseButton::Right, state: ButtonState::Pressed }];
    mode_switch(&mut cam, &events);
    assert_eq!(cam.mode, CameraMode::Rotate);
}

#[test]
fn other_buttons_do_not_switch_mode() {
    let mut cam = TopDownCamera::default();
    let events = vec![
        ButtonEvent { button: MouseButton::Left, state: ButtonState::Pressed },
        ButtonEvent { button: MouseButton::Middle, state: ButtonState::Pressed },
        ButtonEvent { button: MouseButton::Other(7), state: ButtonState::Pressed },
    ];
    mode_switch(&mut cam, &events);
    assert_eq!(cam.mode, CameraMode::Move);
}

#[test]
fn no_events_keep_mode() {
    let mut cam = TopDownCamera::default();
    cam.mode = CameraMode::Rotate;
    mode_switch(&mut cam, &vec![]);
    assert_eq!(cam.mode, CameraMode::Rotate);
    assert!(!cam.initial_setup);
}

#[test]
fn cursor_inside_non_margin_region_is_idle() {
    let cam = TopDownCamera::default();
    let c = CursorPos { x: 400 * UNIT, y: 300 * UNIT };
    let r = move_on_edges(&cam, W, Some(c), no_motion());
    assert_eq!(r, EdgeAction::Idle);
}

#[test]
fn cursor_absent_is_idle_in_both_modes() {
    let mut cam = TopDownCamera::default();
    assert_eq!(move_on_edges(&cam, W, None, no_motion()), EdgeAction::Idle);
    cam.mode = CameraMode::Rotate;
    let motion = MouseDelta { x: 500, y: 0 };
    assert_eq!(move_on_edges(&cam, W, None, motion), EdgeAction::Idle);
}

#[test]
fn cursor_disabled_turns_edge_scroll_off() {
    let mut cam = TopDownCamera::default();
    cam.cursor_enabled = false;
    let c = CursorPos { x: 0, y: 300 * UNIT };
    assert_eq!(move_on_edges(&cam, W, Some(c), no_motion()), EdgeAction::Idle);
}

#[test]
fn full_speed_at_margin_boundary() {
    let cam = TopDownCamera::default();
    let c = CursorPos { x: cam.cursor_edge_margin.x, y: 300 * UNIT };
    let r = move_on_edges(&cam, W, Some(c), no_motion());
    assert_eq!(
        r,
        EdgeAction::Scroll(EdgeScrollPlan {
            along_left: Sign::Pos,
            along_forward: Sign::Zero,
            factor: Ratio { num: 1, den: 1 },
        })
    );
}

#[test]
fn floored_speed_at_physical_edge() {
    let cam = TopDownCamera::default();
    let c = CursorPos { x: 0, y: 300 * UNIT };
    let r = move_on_edges(&cam, W, Some(c), no_motion());
    assert_eq!(
        r,
        EdgeAction::Scroll(EdgeScrollPlan {
            along_left: Sign::Pos,
            along_forward: Sign::Zero,
            factor: Ratio { num: 1, den: 10 },
        })
    );
}

#[test]
fn right_edge_moves_away_from_left_direction() {
    let cam = TopDownCamera::default();
    let c = CursorPos { x: W.width - 5 * UNIT, y: 300 * UNIT };
    let r = move_on_edges(&cam, W, Some(c), no_motion());
    assert_eq!(
        r,
        EdgeAction::Scroll(EdgeScrollPlan {
            along_left: Sign::Neg,
            along_forward: Sign::Zero,
            factor: Ratio { num: 5 * UNIT, den: 30 * UNIT },
        })
    );
}

#[test]
fn bottom_edge_moves_away_from_forward_direction() {
    let cam = TopDownCamera::default();
    let c = CursorPos { x: 400 * UNIT, y: W.height - 15 * UNIT };
    let r = move_on_edges(&cam, W, Some(c), no_motion());
    assert_eq!(
        r,
        EdgeAction::Scroll(EdgeScrollPlan {
            along_left: Sign::Zero,
            along_forward: Sign::Neg,
            factor: Ratio { num: 15 * UNIT, den: 30 * UNIT },
        })
    );
}

#[test]
fn corner_trigger_keeps_one_shared_factor() {
    let cam = TopDownCamera::default();
    // Half way into the left band, a fifth into the top band: one plan, both
    // axis contributions, and the single factor is the smaller ratio.
    let c = CursorPos { x: 15 * UNIT, y: 6 * UNIT };
    let r = move_on_edges(&cam, W, Some(c), no_motion());
    assert_eq!(
        r,
        EdgeAction::Scroll(EdgeScrollPlan {
            along_left: Sign::Pos,
            along_forward: Sign::Pos,
            factor: Ratio { num: 6 * UNIT, den: 30 * UNIT },
        })
    );
}

#[test]
fn rotate_mode_turns_motion_into_yaw() {
    let mut cam = TopDownCamera::default();
    cam.mode = CameraMode::Rotate;
    // 100 pixels of motion at 0.01 radians per pixel: exactly -1 radian.
    let motion = MouseDelta { x: 100 * UNIT as i64, y: 0 };
    let c = CursorPos { x: 400 * UNIT, y: 300 * UNIT };
    let r = move_on_edges(&cam, W, Some(c), motion);
    assert_eq!(r, EdgeAction::Rotate(YawStep { micro_radians: -1_000_000 }));
}

#[test]
fn zoom_step_is_scroll_times_speed() {
    let mut cam = TopDownCamera::default();
    cam.zoom.speed = UNIT;
    // A wheel sum of 2 at speed 1: the translation advances by exactly 2
    // units along the pre-update forward vector.
    let scroll: i64 = 2 * UNIT as i64;
    assert_eq!(zoom(&cam, scroll), 2_000_000);
    assert!(zoom_condition(&cam));
}

#[test]
fn zoom_disabled_gates_the_step() {
    let mut cam = TopDownCamera::default();
    cam.zoom_enabled = false;
    assert!(!zoom_condition(&cam));
}

#[test]
fn zoom_step_handles_negative_scroll() {
    let cam = TopDownCamera::default();
    assert_eq!(zoom(&cam, -1500), -1500 * 10 * UNIT as i128);
}

#[test]
fn overlapping_bands_prefer_the_left_edge() {
    let mut cam = TopDownCamera::default();
    cam.cursor_edge_margin.x = 30 * UNIT;
    let narrow = WindowSize { width: 40 * UNIT, height: 600 * UNIT };
    // Inside both bands: the left band wins.
    let c = CursorPos { x: 20 * UNIT, y: 300 * UNIT };
    let r = move_on_edges(&cam, narrow, Some(c), no_motion());
    assert_eq!(
        r,
        EdgeAction::Scroll(EdgeScrollPlan {
            along_left: Sign::Pos,
            along_forward: Sign::Zero,
            factor: Ratio { num: 20 * UNIT, den: 30 * UNIT },
        })
    );
    // Past the left band but within the right one.
    let c = CursorPos { x: 35 * UNIT, y: 300 * UNIT };
    let r = move_on_edges(&cam, narrow, Some(c), no_motion());
    assert_eq!(
        r,
        EdgeAction::Scroll(EdgeScrollPlan {
            along_left: Sign::Neg,
            along_forward: Sign::Zero,
            factor: Ratio { num: 5 * UNIT, den: 30 * UNIT },
        })
    );
}

#[test]
fn equal_corner_ratios_share_the_factor() {
    let cam = TopDownCamera::default();
    let c = CursorPos { x: 15 * UNIT, y: 15 * UNIT };
    let r = move_on_edges(&cam, W, Some(c), no_motion());
    assert_eq!(
        r,
        EdgeAction::Scroll(EdgeScrollPlan {
            along_left: Sign::Pos,
            along_forward: Sign::Pos,
            factor: Ratio { num: 15 * UNIT, den: 30 * UNIT },
        })
    );
}

#[test]
fn event_order_decides_the_final_mode() {
    let mut cam = TopDownCamera::default();
    let events = vec![
        ButtonEvent { button: MouseButton::Left, state: ButtonState::Pressed },
        ButtonEvent { button: MouseButton::Right, state: ButtonState::Pressed },
        ButtonEvent { button: MouseButton::Right, state: ButtonState::Released },
        ButtonEvent { button: MouseButton::Right, state: ButtonState::Pressed },
    ];
    mode_switch(&mut cam, &events);
    assert_eq!(cam.mode, CameraMode::Rotate);
}

#[test]
fn zero_scroll_is_a_zero_step() {
    let cam = TopDownCamera::default();
    assert_eq!(zoom(&cam, 0), 0);
}
