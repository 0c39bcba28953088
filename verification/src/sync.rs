//! Target synchronization: the last frame phase, which may overwrite the
//! camera pose from a followed target and advances the one-shot
//! `initial_setup` flag. The host schedules it strictly before its
//! global-transform propagation, so downstream readers never observe a stale
//! camera transform.

use vstd::prelude::*;
use crate::TopDownCamera;

verus! {

/// A camera pose: a translation and an orientation, over whatever vector and
/// quaternion types the host renders with. The library moves whole poses
/// around but never looks inside them.
#[derive(Clone, Copy, PartialEq, Eq, Debug)]
pub struct Pose<V, Q> {
    pub translation: V,
    pub rotation: Q,
}

/// The synchronization phase does work only until the first sync has
/// happened, or for as long as the camera follows its target; afterwards,
/// with `follow` off, the camera stays wherever free-roam left it.
pub open spec fn sync_active(cam: TopDownCamera) -> bool {
    !(cam.initial_setup && !cam.follow)
}

/// The result of one synchronization phase: when active, the pose of the
/// last target candidate (if any) replaces the camera pose and
/// `initial_setup` is set; when inactive, nothing changes.
pub open spec fn spec_sync<V, Q>(
    cam: TopDownCamera,
    pose: Pose<V, Q>,
    targets: Seq<Pose<V, Q>>,
) -> (TopDownCamera, Pose<V, Q>) {
    if !sync_active(cam) {
        (cam, pose)
    } else {
        let synced = if targets.len() > 0 {
            targets.last()
        } else {
            pose
        };
        (TopDownCamera { initial_setup: true, ..cam }, synced)
    }
}

/// Synchronizes the camera pose from the followed target, last candidate
/// winning, and advances `initial_setup`; a no-op once the first sync is done
/// and `follow` is off.
///
/// `targets` holds one candidate pose per target entity seen this frame, in
/// encounter order, each computed by the host from that target's transform:
/// the orientation that looks from the target toward negative infinity along
/// the world forward axis with world-up reference, pitched a further 0.65
/// radians downward, and the target's translation raised and pulled back by
/// `sync_offset` along the world vertical and forward axes.
pub fn sync_player_camera<V: Copy, Q: Copy>(
    cam: &mut TopDownCamera,
    pose: &mut Pose<V, Q>,
    targets: &Vec<Pose<V, Q>>,
)
    ensures
        (*final(cam), *final(pose)) == spec_sync(*old(cam), *old(pose), targets@),
        final(cam).initial_setup,
{
    if cam.initial_setup && !cam.follow {
        return ;
    }
    if targets.len() > 0 {
        *pose = targets[targets.len() - 1];
    }
    if !cam.initial_setup {
        cam.initial_setup = true;
    }
}

/// Half the configured maximum height, exact in thousandths of a world unit:
/// the vertical and backward components of the fixed offset the host adds to
/// the target position when building a sync candidate.
pub fn sync_offset(cam: &TopDownCamera) -> (r: u32)
    ensures
        r == cam.height.max / 2,
{
    cam.height.max / 2
}

/// With `follow` off, the camera freezes after the first sync: whatever that
/// first synchronization did, every later one leaves both the camera state
/// and the pose exactly as they were, however the targets move.
pub proof fn lemma_follow_off_freezes<V, Q>(
    cam: TopDownCamera,
    pose: Pose<V, Q>,
    first: Seq<Pose<V, Q>>,
    later: Seq<Pose<V, Q>>,
)
    requires
        !cam.follow,
    ensures
        ({
            let (cam1, pose1) = spec_sync(cam, pose, first);
            spec_sync(cam1, pose1, later) == (cam1, pose1)
        }),
{
}

/// With `follow` on, every frame recomputes the camera pose from the target:
/// the synchronization result is the last target candidate, overriding
/// whatever the free-roam motion of the frame had set, and the sync stays
/// armed for the next frame.
pub proof fn lemma_follow_on_tracks_target<V, Q>(
    cam: TopDownCamera,
    pose: Pose<V, Q>,
    targets: Seq<Pose<V, Q>>,
)
    requires
        cam.follow,
        targets.len() > 0,
    ensures
        spec_sync(cam, pose, targets).1 == targets.last(),
        sync_active(spec_sync(cam, pose, targets).0),
{
}

} // verus!
