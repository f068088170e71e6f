use spatial_grab::capture::{arbitrate, capture_condition, CaptureContext};
use spatial_grab::handler::Grabble;
use spatial_grab::input::{
    finger_separation, ControllerData, Hand, InputData, InputMethod, MouseData, GRAB_SEPARATION,
};
use spatial_grab::math::Vec3;

fn v(x: i64, y: i64, z: i64) -> Vec3 {
    Vec3 { x, y, z }
}

fn idle_handler() -> Grabble {
    Grabble::new(v(0, 0, 0), None)
}

fn touching_ctx() -> CaptureContext {
    CaptureContext { closest_point: v(0, 0, 0), pointer_location: v(0, 0, 0) }
}

fn far_ctx() -> CaptureContext {
    CaptureContext { closest_point: v(0, 0, 0), pointer_location: v(0, 0, 900_000) }
}

fn pinched_hand() -> Hand {
    Hand {
        thumb_pos: v(0, 0, 0),
        thumb_radius: 10_000,
        index_pos: v(0, 0, 14_000),
        index_radius: 10_000,
    }
}

fn open_hand() -> Hand {
    Hand {
        thumb_pos: v(0, 0, 0),
        thumb_radius: 10_000,
        index_pos: v(0, 0, 60_000),
        index_radius: 10_000,
    }
}

#[test]
fn pinch_true_below_threshold() {
    // Tips 14 mm apart, radii 10 mm each, allowance 5 mm: 14 < 25.
    assert!(finger_separation(&pinched_hand(), GRAB_SEPARATION));
}

#[test]
fn pinch_false_at_threshold_and_beyond() {
    // Tips 30 mm apart: 30 >= 25.
    let mut hand = pinched_hand();
    hand.index_pos = v(0, 0, 30_000);
    assert!(!finger_separation(&hand, GRAB_SEPARATION));
}

#[test]
fn squeezing_controller_captures_when_touching() {
    let m = InputMethod {
        id: 1,
        pose: v(0, 0, 0),
        data: InputData::Controller(ControllerData { squeezed: true }),
    };
    assert!(capture_condition(&touching_ctx(), &m, &idle_handler()));
}

#[test]
fn proximity_without_gesture_does_not_capture() {
    let m = InputMethod {
        id: 1,
        pose: v(0, 0, 0),
        data: InputData::Controller(ControllerData { squeezed: false }),
    };
    assert!(!capture_condition(&touching_ctx(), &m, &idle_handler()));
    let hand = InputMethod { id: 2, pose: v(0, 0, 0), data: InputData::Hand(open_hand()) };
    assert!(!capture_condition(&touching_ctx(), &hand, &idle_handler()));
}

#[test]
fn held_handler_refuses_every_candidate() {
    let mut handler = idle_handler();
    handler.captured = Some(9);
    let m = InputMethod {
        id: 1,
        pose: v(0, 0, 0),
        data: InputData::Controller(ControllerData { squeezed: true }),
    };
    assert!(!capture_condition(&touching_ctx(), &m, &handler));
}

#[test]
fn pinching_hand_captures_within_hand_range() {
    // Pointer 50 mm away: outside the 1 mm base threshold, inside hand range.
    let ctx = CaptureContext { closest_point: v(0, 0, 0), pointer_location: v(0, 0, 50_000) };
    let m = InputMethod { id: 3, pose: v(0, 0, 50_000), data: InputData::Hand(pinched_hand()) };
    assert!(capture_condition(&ctx, &m, &idle_handler()));
}

#[test]
fn widened_allowance_alone_does_not_capture() {
    // Tips 26 mm apart pass the widened 27.5 mm allowance but fail the base
    // 25 mm gesture test, so the capture is still refused.
    let mut hand = pinched_hand();
    hand.index_pos = v(0, 0, 26_000);
    let ctx = CaptureContext { closest_point: v(0, 0, 0), pointer_location: v(0, 0, 50_000) };
    let m = InputMethod { id: 3, pose: v(0, 0, 50_000), data: InputData::Hand(hand) };
    assert!(!capture_condition(&ctx, &m, &idle_handler()));
}

#[test]
fn distant_hand_does_not_capture_by_pinching() {
    // Pinching well outside hand range captures nothing.
    let m = InputMethod { id: 3, pose: v(0, 0, 900_000), data: InputData::Hand(pinched_hand()) };
    assert!(!capture_condition(&far_ctx(), &m, &idle_handler()));
}

#[test]
fn mouse_pointer_fallback_needs_left_button() {
    let pressed = InputMethod {
        id: 4,
        pose: v(0, 0, 900_000),
        data: InputData::Pointer(Some(MouseData { left_pressed: true, scroll_y: 0 })),
    };
    assert!(capture_condition(&far_ctx(), &pressed, &idle_handler()));
    let released = InputMethod {
        id: 4,
        pose: v(0, 0, 900_000),
        data: InputData::Pointer(Some(MouseData { left_pressed: false, scroll_y: 0 })),
    };
    assert!(!capture_condition(&far_ctx(), &released, &idle_handler()));
}

#[test]
fn bare_ray_pointer_captures_unconditionally() {
    let ray = InputMethod { id: 5, pose: v(0, 0, 900_000), data: InputData::Pointer(None) };
    assert!(capture_condition(&far_ctx(), &ray, &idle_handler()));
}

#[test]
fn arbitrate_commits_first_winner_only() {
    let mut handler = idle_handler();
    let methods = vec![
        InputMethod {
            id: 10,
            pose: v(0, 0, 0),
            data: InputData::Controller(ControllerData { squeezed: false }),
        },
        InputMethod {
            id: 11,
            pose: v(0, 0, 0),
            data: InputData::Controller(ControllerData { squeezed: true }),
        },
    ];
    let ctxs = vec![touching_ctx(), touching_ctx()];
    arbitrate(&mut handler, &methods, &ctxs);
    assert_eq!(handler.captured, Some(11));
    assert!(handler.is_held());
    assert_eq!(handler.grabbed, None);
}

#[test]
fn arbitrate_keeps_existing_owner() {
    let mut handler = idle_handler();
    handler.captured = Some(10);
    let methods = vec![InputMethod {
        id: 11,
        pose: v(0, 0, 0),
        data: InputData::Controller(ControllerData { squeezed: true }),
    }];
    let ctxs = vec![touching_ctx()];
    arbitrate(&mut handler, &methods, &ctxs);
    assert_eq!(handler.captured, Some(10));
}

#[test]
fn arbitrate_without_winner_leaves_handler_idle() {
    let mut handler = idle_handler();
    let methods = vec![InputMethod {
        id: 11,
        pose: v(0, 0, 0),
        data: InputData::Controller(ControllerData { squeezed: false }),
    }];
    let ctxs = vec![touching_ctx()];
    arbitrate(&mut handler, &methods, &ctxs);
    assert_eq!(handler.captured, None);
    assert!(!handler.is_held());
}

#[test]
fn pinch_boundary_is_exclusive() {
    // Tips exactly 25 mm apart equal the threshold and do not count as a
    // pinch: the comparison is strict.
    let mut hand = pinched_hand();
    hand.index_pos = v(0, 0, 25_000);
    assert!(!finger_separation(&hand, GRAB_SEPARATION));
    hand.index_pos = v(0, 0, 24_999);
    assert!(finger_separation(&hand, GRAB_SEPARATION));
}

#[test]
fn base_proximity_boundary_is_inclusive() {
    // A squeezing controller exactly one millimetre away still captures;
    // one micrometre farther it no longer does.
    let m = InputMethod {
        id: 1,
        pose: v(0, 0, 0),
        data: InputData::Controller(ControllerData { squeezed: true }),
    };
    let at_threshold =
        CaptureContext { closest_point: v(0, 0, 0), pointer_location: v(0, 0, 1_000) };
    assert!(capture_condition(&at_threshold, &m, &idle_handler()));
    let beyond =
        CaptureContext { closest_point: v(0, 0, 0), pointer_location: v(0, 0, 1_001) };
    assert!(!capture_condition(&beyond, &m, &idle_handler()));
}
