//! Mouse-input phase of the per-frame update: mode switching from button
//! events, edge-scroll and rotation decisions from the cursor and motion
//! deltas, and the zoom step from wheel input.

use vstd::prelude::*;
use crate::CameraMode;
use crate::TopDownCamera;

verus! {

/// Marker for the mouse-input phase of the per-frame update. The host
/// schedules `move_on_edges` in its input-sampling phase and `mode_switch`
/// plus the zoom step (gated by `zoom_condition`) in its update phase.
#[derive(Clone, Copy, PartialEq, Eq, Structural, Debug)]
pub struct MousePlugin;

/// Window size in thousandths of a pixel.
#[derive(Clone, Copy, PartialEq, Eq, Structural, Debug)]
pub struct WindowSize {
    pub width: u32,
    pub height: u32,
}

/// Cursor position in thousandths of a pixel, measured from the top-left
/// corner of the window. Only produced while the cursor is inside the window,
/// so both coordinates are bounded by the window size.
#[derive(Clone, Copy, PartialEq, Eq, Structural, Debug)]
pub struct CursorPos {
    pub x: u32,
    pub y: u32,
}

/// Sum of the frame's mouse-motion deltas, in thousandths of a pixel.
#[derive(Clone, Copy, PartialEq, Eq, Structural, Debug)]
pub struct MouseDelta {
    pub x: i64,
    pub y: i64,
}

/// An exact non-negative fraction `num / den`. Edge ratios and the speed
/// factor are fractions of small pixel quantities, so `u32` components
/// suffice and cross-multiplication stays within `u64`.
#[derive(Clone, Copy, PartialEq, Eq, Structural, Debug)]
pub struct Ratio {
    pub num: u32,
    pub den: u32,
}

/// `an / ad <= bn / bd`, by cross-multiplication (denominators positive).
pub open spec fn rat_le(an: int, ad: int, bn: int, bd: int) -> bool {
    an * bd <= bn * ad
}

/// The smaller of two ratios; `a` on ties.
pub open spec fn spec_ratio_min(a: Ratio, b: Ratio) -> Ratio {
    if rat_le(a.num as int, a.den as int, b.num as int, b.den as int) {
        a
    } else {
        b
    }
}

/// A ratio clamped into [1/10, 1]: the floor keeps the camera moving at a
/// tenth of full speed even right at the physical screen edge, the ceiling
/// caps the factor at full speed.
pub open spec fn spec_clamp_factor(r: Ratio) -> Ratio {
    if rat_le(r.num as int, r.den as int, 1, 10) {
        Ratio { num: 1, den: 10 }
    } else if rat_le(1, 1, r.num as int, r.den as int) {
        Ratio { num: 1, den: 1 }
    } else {
        r
    }
}

fn ratio_le(a: Ratio, b: Ratio) -> (r: bool)
    requires
        a.den >= 1,
        b.den >= 1,
    ensures
        r == rat_le(a.num as int, a.den as int, b.num as int, b.den as int),
{
    proof {
        assert((a.num as int) * (b.den as int) < 0x1_0000_0000 * 0x1_0000_0000
            && (b.num as int) * (a.den as int) < 0x1_0000_0000 * 0x1_0000_0000)
            by (nonlinear_arith)
            requires
                a.num < 0x1_0000_0000,
                b.den < 0x1_0000_0000,
                b.num < 0x1_0000_0000,
                a.den < 0x1_0000_0000,
                a.num >= 0,
                b.num >= 0,
                a.den >= 1,
                b.den >= 1,
        ;
    }
    (a.num as u64) * (b.den as u64) <= (b.num as u64) * (a.den as u64)
}

fn ratio_min(a: Ratio, b: Ratio) -> (r: Ratio)
    requires
        a.den >= 1,
        b.den >= 1,
    ensures
        r == spec_ratio_min(a, b),
{
    if ratio_le(a, b) {
        a
    } else {
        b
    }
}

fn clamp_factor(r: Ratio) -> (c: Ratio)
    requires
        r.den >= 1,
    ensures
        c == spec_clamp_factor(r),
{
    if ratio_le(r, Ratio { num: 1, den: 10 }) {
        Ratio { num: 1, den: 10 }
    } else if ratio_le(Ratio { num: 1, den: 1 }, r) {
        Ratio { num: 1, den: 1 }
    } else {
        r
    }
}

/// Direction of one axis contribution to the edge-scroll movement: a factor
/// on the camera's ground-projected left direction (horizontal axis) or
/// forward direction (vertical axis).
#[derive(Clone, Copy, PartialEq, Eq, Structural, Debug)]
pub enum Sign {
    Neg,
    Zero,
    Pos,
}

/// An edge-scroll decision: the movement vector is
/// `along_left * leftDir + along_forward * forwardDir`, normalized, and the
/// displacement is that unit vector times `max_speed * factor * dt`. The two
/// axis contributions are summed before normalizing, so a diagonal trigger
/// still advances at unit speed.
#[derive(Clone, Copy, PartialEq, Eq, Structural, Debug)]
pub struct EdgeScrollPlan {
    /// Contribution along the camera's ground-projected left direction.
    pub along_left: Sign,
    /// Contribution along the camera's ground-projected forward direction.
    pub along_forward: Sign,
    /// Exact speed factor in [1/10, 1].
    pub factor: Ratio,
}

/// A yaw step: rotate about the world vertical axis by this angle, in
/// millionths of a radian (the product of two thousandth-scaled inputs),
/// composed onto the current orientation.
#[derive(Clone, Copy, PartialEq, Eq, Structural, Debug)]
pub struct YawStep {
    pub micro_radians: i128,
}

/// What the motion phase of one frame does to the camera pose.
#[derive(Clone, Copy, PartialEq, Eq, Structural, Debug)]
pub enum EdgeAction {
    /// Leave the pose unchanged.
    Idle,
    /// Translate along the edge-scroll movement vector.
    Scroll(EdgeScrollPlan),
    /// Compose a yaw rotation onto the current orientation.
    Rotate(YawStep),
}

/// Horizontal edge trigger: within the left band the movement gains the left
/// direction, within the right band it loses it; the ratio measures how far
/// from the physical edge the cursor sits, as a fraction of the band width.
/// The left band wins where the bands overlap.
pub open spec fn h_trigger(cam: TopDownCamera, window: WindowSize, c: CursorPos) -> Option<
    (Sign, Ratio),
> {
    let m = cam.cursor_edge_margin.x;
    if c.x <= m {
        Some((Sign::Pos, Ratio { num: c.x, den: m }))
    } else if c.x + m >= window.width {
        Some((Sign::Neg, Ratio { num: (window.width - c.x) as u32, den: m }))
    } else {
        None
    }
}

/// Vertical edge trigger, symmetric to `h_trigger` with the forward
/// direction and the `y` margin against the window height.
pub open spec fn v_trigger(cam: TopDownCamera, window: WindowSize, c: CursorPos) -> Option<
    (Sign, Ratio),
> {
    let m = cam.cursor_edge_margin.y;
    if c.y <= m {
        Some((Sign::Pos, Ratio { num: c.y, den: m }))
    } else if c.y + m >= window.height {
        Some((Sign::Neg, Ratio { num: (window.height - c.y) as u32, den: m }))
    } else {
        None
    }
}

/// The axis contribution of a trigger: `Zero` where no edge is triggered.
pub open spec fn sign_of(t: Option<(Sign, Ratio)>) -> Sign {
    match t {
        Some(p) => p.0,
        None => Sign::Zero,
    }
}

/// Folds a trigger's ratio into the running minimum; an untriggered axis
/// leaves it unchanged.
pub open spec fn min_with(acc: Ratio, t: Option<(Sign, Ratio)>) -> Ratio {
    match t {
        Some(p) => spec_ratio_min(acc, p.1),
        None => acc,
    }
}

/// The edge-scroll decision in `Move` mode: `None` while the cursor is
/// strictly inside the non-margin region, otherwise the triggered axis
/// contributions with the clamped minimum of the triggered ratios (starting
/// from a full-speed factor of 1).
pub open spec fn spec_edge_plan(cam: TopDownCamera, window: WindowSize, c: CursorPos) -> Option<
    EdgeScrollPlan,
> {
    let h = h_trigger(cam, window, c);
    let v = v_trigger(cam, window, c);
    if h is None && v is None {
        None
    } else {
        Some(
            EdgeScrollPlan {
                along_left: sign_of(h),
                along_forward: sign_of(v),
                factor: spec_clamp_factor(min_with(min_with(Ratio { num: 1, den: 1 }, h), v)),
            },
        )
    }
}

/// The yaw step in `Rotate` mode: `-delta.x * rotate_speed`, exact in
/// millionths of a radian (the product of an `i64` and a `u32` always fits
/// `i128`, so the cast never truncates).
pub open spec fn spec_yaw(cam: TopDownCamera, motion: MouseDelta) -> YawStep {
    YawStep { micro_radians: (-motion.x * cam.rotate_speed) as i128 }
}

/// The whole motion-phase decision: a no-op without a cursor position; in
/// `Move` mode the edge-scroll plan (or a no-op when edge scrolling is
/// disabled by `cursor_enabled`); in `Rotate` mode the yaw step.
pub open spec fn spec_edge_action(
    cam: TopDownCamera,
    window: WindowSize,
    cursor: Option<CursorPos>,
    motion: MouseDelta,
) -> EdgeAction {
    match cursor {
        None => EdgeAction::Idle,
        Some(c) => match cam.mode {
            CameraMode::Move => {
                if !cam.cursor_enabled {
                    EdgeAction::Idle
                } else {
                    match spec_edge_plan(cam, window, c) {
                        Some(plan) => EdgeAction::Scroll(plan),
                        None => EdgeAction::Idle,
                    }
                }
            },
            CameraMode::Rotate => EdgeAction::Rotate(spec_yaw(cam, motion)),
        },
    }
}

/// Decides the motion phase of one frame: edge scrolling in `Move` mode,
/// yaw rotation in `Rotate` mode. The host applies the returned action to
/// the camera transform with its own vector types: for `Scroll` it builds
/// the movement vector from its ground-projected left and forward directions
/// (skipping the frame if that vector is degenerate), normalizes it, and
/// advances the translation by `max_speed * factor * dt` along it; for
/// `Rotate` it composes the yaw onto the current orientation.
pub fn move_on_edges(
    cam: &TopDownCamera,
    window: WindowSize,
    cursor: Option<CursorPos>,
    motion: MouseDelta,
) -> (r: EdgeAction)
    requires
        cam.wf(),
        cursor matches Some(c) ==> c.x <= window.width && c.y <= window.height,
    ensures
        r == spec_edge_action(*cam, window, cursor, motion),
{
    let c = match cursor {
        Some(c) => c,
        None => {
            return EdgeAction::Idle;
        },
    };
    match cam.mode {
        CameraMode::Move => {
            if !cam.cursor_enabled {
                return EdgeAction::Idle;
            }
            let mut along_left = Sign::Zero;
            let mut along_forward = Sign::Zero;
            let mut min_edge_ratio = Ratio { num: 1, den: 1 };

            // Horizontal band.
            let mx = cam.cursor_edge_margin.x;
            if c.x <= mx {
                along_left = Sign::Pos;
                min_edge_ratio = ratio_min(min_edge_ratio, Ratio { num: c.x, den: mx });
            } else if (c.x as u64) + (mx as u64) >= (window.width as u64) {
                along_left = Sign::Neg;
                min_edge_ratio = ratio_min(min_edge_ratio, Ratio { num: window.width - c.x, den: mx });
            }

            // Vertical band.
            let my = cam.cursor_edge_margin.y;
            if c.y <= my {
                along_forward = Sign::Pos;
                min_edge_ratio = ratio_min(min_edge_ratio, Ratio { num: c.y, den: my });
            } else if (c.y as u64) + (my as u64) >= (window.height as u64) {
                along_forward = Sign::Neg;
                min_edge_ratio = ratio_min(min_edge_ratio, Ratio { num: window.height - c.y, den: my });
            }

            if along_left == Sign::Zero && along_forward == Sign::Zero {
                EdgeAction::Idle
            } else {
                EdgeAction::Scroll(
                    EdgeScrollPlan {
                        along_left,
                        along_forward,
                        factor: clamp_factor(min_edge_ratio),
                    },
                )
            }
        },
        CameraMode::Rotate => {
            proof {
                assert(-motion.x * (cam.rotate_speed as int) <= 0x8000_0000_0000_0000i128
                    * 0x1_0000_0000i128 && -motion.x * (cam.rotate_speed as int)
                    >= -0x8000_0000_0000_0000i128 * 0x1_0000_0000i128) by (nonlinear_arith)
                    requires
                        -0x8000_0000_0000_0000 <= motion.x <= 0x7fff_ffff_ffff_ffff,
                        0 <= cam.rotate_speed < 0x1_0000_0000,
                ;
            }
            let yaw: i128 = -(motion.x as i128) * (cam.rotate_speed as i128);
            EdgeAction::Rotate(YawStep { micro_radians: yaw })
        },
    }
}

/// A mouse button, as reported by the host's button events.
#[derive(Clone, Copy, PartialEq, Eq, Structural, Debug)]
pub enum MouseButton {
    Left,
    Right,
    Middle,
    Back,
    Forward,
    Other(u16),
}

/// Whether a button event is a press or a release.
#[derive(Clone, Copy, PartialEq, Eq, Structural, Debug)]
pub enum ButtonState {
    Pressed,
    Released,
}

/// One button transition event, in arrival order within the frame.
#[derive(Clone, Copy, PartialEq, Eq, Structural, Debug)]
pub struct ButtonEvent {
    pub button: MouseButton,
    pub state: ButtonState,
}

/// The mode after one event: a right-button press switches to `Rotate`, a
/// right-button release back to `Move`; every other button is ignored.
pub open spec fn mode_step(m: CameraMode, ev: ButtonEvent) -> CameraMode {
    if ev.button is Right {
        match ev.state {
            ButtonState::Pressed => CameraMode::Rotate,
            ButtonState::Released => CameraMode::Move,
        }
    } else {
        m
    }
}

/// The mode after a frame's events, processed strictly in arrival order, so
/// the last right-button event determines the mode for the frame.
pub open spec fn mode_after(m: CameraMode, evs: Seq<ButtonEvent>) -> CameraMode
    decreases evs.len(),
{
    if evs.len() == 0 {
        m
    } else {
        mode_after(mode_step(m, evs[0]), evs.subrange(1, evs.len() as int))
    }
}

/// Folds the frame's button events into the camera mode; every other field
/// of the camera is left unchanged.
pub fn mode_switch(cam: &mut TopDownCamera, events: &Vec<ButtonEvent>)
    ensures
        final(cam).mode == mode_after(old(cam).mode, events@),
        *final(cam) == (TopDownCamera { mode: final(cam).mode, ..*old(cam) }),
{
    let ghost all = events@;
    proof {
        assert(all.subrange(0, all.len() as int) =~= all);
    }
    let mut i: usize = 0;
    while i < events.len()
        invariant
            i <= events.len(),
            events@ == all,
            mode_after(old(cam).mode, all) == mode_after(cam.mode, all.subrange(i as int, all.len() as int)),
            *cam == (TopDownCamera { mode: cam.mode, ..*old(cam) }),
        decreases events.len() - i,
    {
        let ev = events[i];
        proof {
            let rest = all.subrange(i as int, all.len() as int);
            assert(rest[0] == all[i as int]);
            assert(rest.subrange(1, rest.len() as int)
                =~= all.subrange(i as int + 1, all.len() as int));
        }
        if ev.button == MouseButton::Right {
            match ev.state {
                ButtonState::Pressed => {
                    cam.mode = CameraMode::Rotate;
                },
                ButtonState::Released => {
                    cam.mode = CameraMode::Move;
                },
            }
        }
        i = i + 1;
    }
    proof {
        assert(all.subrange(all.len() as int, all.len() as int) =~= Seq::<ButtonEvent>::empty());
    }
}

/// The zoom step for a frame: translate the camera along its current forward
/// vector by `scroll * zoom.speed`, exact in millionths of a world unit (the
/// wheel sum and the speed are both in thousandths). The host applies the
/// step only while `zoom_condition` holds. No clamping against `zoom.min` or
/// `zoom.max` is applied.
pub fn zoom(cam: &TopDownCamera, scroll: i64) -> (r: i128)
    ensures
        r == scroll * cam.zoom.speed,
{
    proof {
        assert(scroll * (cam.zoom.speed as int) <= 0x8000_0000_0000_0000i128 * 0x1_0000_0000i128
            && scroll * (cam.zoom.speed as int) >= -0x8000_0000_0000_0000i128
            * 0x1_0000_0000i128) by (nonlinear_arith)
            requires
                -0x8000_0000_0000_0000 <= scroll <= 0x7fff_ffff_ffff_ffff,
                0 <= cam.zoom.speed < 0x1_0000_0000,
        ;
    }
    (scroll as i128) * (cam.zoom.speed as i128)
}

/// Gate for the zoom step: wheel input takes effect only while zooming is
/// enabled in the configuration.
pub fn zoom_condition(cam: &TopDownCamera) -> (r: bool)
    ensures
        r == cam.zoom_enabled,
{
    cam.zoom_enabled
}

/// A frame without right-button events keeps the mode it started with.
pub proof fn lemma_no_right_event_keeps_mode(m: CameraMode, evs: Seq<ButtonEvent>)
    requires
        forall|j: int| 0 <= j < evs.len() ==> !(evs[j].button is Right),
    ensures
        mode_after(m, evs) == m,
    decreases evs.len(),
{
    if evs.len() > 0 {
        let rest = evs.subrange(1, evs.len() as int);
        assert(forall|j: int| 0 <= j < rest.len() ==> rest[j] == evs[j + 1]);
        lemma_no_right_event_keeps_mode(mode_step(m, evs[0]), rest);
    }
}

/// Folding a frame's events splits at any point: the mode after all events
/// is the mode after the tail, started from the mode after the head.
pub proof fn lemma_mode_after_split(m: CameraMode, evs: Seq<ButtonEvent>, k: int)
    requires
        0 <= k <= evs.len(),
    ensures
        mode_after(m, evs) == mode_after(
            mode_after(m, evs.subrange(0, k)),
            evs.subrange(k, evs.len() as int),
        ),
    decreases k,
{
    if k == 0 {
        assert(evs.subrange(0, 0) =~= Seq::<ButtonEvent>::empty());
        assert(evs.subrange(0, evs.len() as int) =~= evs);
    } else {
        let head = evs.subrange(0, k);
        let stepped = mode_step(m, evs[0]);
        let rest = evs.subrange(1, evs.len() as int);
        assert(head[0] == evs[0]);
        assert(head.subrange(1, k) =~= rest.subrange(0, k - 1));
        assert(rest.subrange(k - 1, rest.len() as int)
            =~= evs.subrange(k, evs.len() as int));
        lemma_mode_after_split(stepped, rest, k - 1);
    }
}

/// The last right-button event of a frame alone determines the mode the
/// frame ends in: a press ends it in `Rotate`, a release in `Move`, whatever
/// came before and whatever other buttons follow.
pub proof fn lemma_last_right_event_wins(m: CameraMode, evs: Seq<ButtonEvent>, i: int)
    requires
        0 <= i < evs.len(),
        evs[i].button is Right,
        forall|j: int| i < j < evs.len() ==> !(evs[j].button is Right),
    ensures
        mode_after(m, evs) == mode_step(m, evs[i]),
        evs[i].state is Pressed ==> mode_after(m, evs) == CameraMode::Rotate,
        evs[i].state is Released ==> mode_after(m, evs) == CameraMode::Move,
{
    lemma_mode_after_split(m, evs, i);
    let before = mode_after(m, evs.subrange(0, i));
    let tail = evs.subrange(i, evs.len() as int);
    assert(tail[0] == evs[i]);
    let rest = tail.subrange(1, tail.len() as int);
    assert(forall|j: int| 0 <= j < rest.len() ==> rest[j] == evs[i + 1 + j]);
    lemma_no_right_event_keeps_mode(mode_step(before, evs[i]), rest);
}

/// While the cursor sits strictly inside the non-margin region, no edge is
/// triggered and the motion phase leaves the camera translation unchanged:
/// the decision is `Idle`, whatever the accumulated mouse motion.
pub proof fn lemma_no_edge_inside(
    cam: TopDownCamera,
    window: WindowSize,
    c: CursorPos,
    motion: MouseDelta,
)
    requires
        cam.mode is Move,
        cam.cursor_edge_margin.x < c.x,
        c.x + cam.cursor_edge_margin.x < window.width,
        cam.cursor_edge_margin.y < c.y,
        c.y + cam.cursor_edge_margin.y < window.height,
    ensures
        spec_edge_action(cam, window, Some(c), motion) == EdgeAction::Idle,
{
}

/// A cursor exactly on the inner boundary of the left band (and clear of the
/// vertical bands) yields the full-speed factor 1, not the floored one.
pub proof fn lemma_full_speed_at_band_boundary(
    cam: TopDownCamera,
    window: WindowSize,
    c: CursorPos,
)
    requires
        cam.wf(),
        cam.cursor_enabled,
        cam.mode is Move,
        c.x == cam.cursor_edge_margin.x,
        c.x + cam.cursor_edge_margin.x < window.width,
        cam.cursor_edge_margin.y < c.y,
        c.y + cam.cursor_edge_margin.y < window.height,
    ensures
        spec_edge_plan(cam, window, c) matches Some(plan) && plan.factor == (Ratio {
            num: 1,
            den: 1,
        }),
{
}

/// A cursor at the physical screen edge (and clear of the vertical bands)
/// yields a ratio of 0, which the clamp floors to 1/10: the camera never
/// fully stalls at the extreme edge.
pub proof fn lemma_floored_speed_at_screen_edge(
    cam: TopDownCamera,
    window: WindowSize,
    c: CursorPos,
)
    requires
        cam.wf(),
        cam.cursor_enabled,
        cam.mode is Move,
        c.x == 0,
        cam.cursor_edge_margin.x < window.width,
        cam.cursor_edge_margin.y < c.y,
        c.y + cam.cursor_edge_margin.y < window.height,
    ensures
        spec_edge_plan(cam, window, c) matches Some(plan) && plan.factor == (Ratio {
            num: 1,
            den: 10,
        }),
{
}

} // verus!

