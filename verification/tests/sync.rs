use top_down_camera::sync::sync_offset;
use top_down_camera::sync::sync_player_camera;
use top_down_camera::sync::Pose;
use top_down_camera::TopDownCamera;
use top_down_camera::UNIT;

fn pose(t: i32, r: i32) -> Pose<i32, i32> {
    Pose { translation: t, rotation: r }
}

#[test]
fn follow_off_freezes_after_first_sync() {
    let mut cam = TopDownCamera::default();
    let mut p = pose(0, 0);

    sync_player_camera(&mut cam, &mut p, &vec![pose(10, 1)]);
    assert!(cam.initial_setup);
    assert_eq!(p, pose(10, 1));

    // The target moves; with follow off the camera stays put.
    sync_player_camera(&mut cam, &mut p, &vec![pose(99, 9)]);
    assert_eq!(p, pose(10, 1));
    assert!(cam.initial_setup);
}

#[test]
fn follow_on_tracks_target_every_frame() {
    let mut cam = TopDownCamera::default();
    cam.follow = true;
    let mut p = pose(0, 0);

    sync_player_camera(&mut cam, &mut p, &vec![pose(10, 1)]);
    assert_eq!(p, pose(10, 1));

    // Free-roam motion moved the camera this frame; the sync overrides it.
    p = pose(42, 7);
    sync_player_camera(&mut cam, &mut p, &vec![pose(20, 2)]);
    assert_eq!(p, pose(20, 2));
}

#[test]
fn no_target_still_arms_the_flag() {
    let mut cam = TopDownCamera::default();
    let mut p = pose(3, 4);
    sync_player_camera(&mut cam, &mut p, &vec![]);
    assert_eq!(p, pose(3, 4));
    assert!(cam.initial_setup);
}

#[test]
fn last_of_several_targets_wins() {
    let mut cam = TopDownCamera::default();
    let mut p = pose(0, 0);
    sync_player_camera(&mut cam, &mut p, &vec![pose(1, 1), pose(2, 2), pose(3, 3)]);
    assert_eq!(p, pose(3, 3));
}

#[test]
fn sync_offset_is_half_the_maximum_height() {
    let cam = TopDownCamera::default();
    assert_eq!(sync_offset(&cam), 25 * UNIT);
}
