//! Orbit-camera controller state and the per-frame input fold.
//!
//! The controller keeps spherical coordinates for a camera that always
//! looks at the world origin. Angles are stored in microradians and the
//! orbit radius in millionths of a world unit, so every constant of the
//! controller (clamp bounds, default configuration, drag and zoom scales)
//! is represented exactly.
//!
//! Pointer-drag sensitivity is stored as the angle applied per unit of
//! pointer motion, with the fixed per-event factor of one hundredth
//! already folded in: a drag scale of 0.2 becomes 2_000 microradians per
//! count. The zoom sensitivity is the change of radius per scroll unit,
//! in millionths of a unit.

use vstd::prelude::*;

verus! {

/// Lower clamp bound of the pitch angle: 0.1 rad, in microradians.
pub const PITCH_MIN: i64 = 100_000;
/// Upper clamp bound of the pitch angle: 1.5 rad, in microradians.
pub const PITCH_MAX: i64 = 1_500_000;
/// Lower clamp bound of the orbit radius: 1.0, in millionths of a unit.
pub const DISTANCE_MIN: i64 = 1_000_000;
/// Upper clamp bound of the orbit radius: 20.0, in millionths of a unit.
pub const DISTANCE_MAX: i64 = 20_000_000;

/// Default drag scale: 0.2 of a hundredth of a radian per count,
/// i.e. 2_000 microradians of angle per unit of pointer motion.
pub const DEFAULT_SENSITIVITY: i64 = 2_000;
/// Default zoom scale: 0.1 of a unit of radius per scroll unit.
pub const DEFAULT_ZOOM_SENSITIVITY: i64 = 100_000;
/// Default orbit radius: 5.0 units.
pub const DEFAULT_DISTANCE: i64 = 5_000_000;
/// Default yaw angle: 0 rad.
pub const DEFAULT_YAW: i64 = 0;
/// Default pitch angle: 0.5 rad.
pub const DEFAULT_PITCH: i64 = 500_000;

/// One pointer-motion event: a relative delta in counts, as delivered
/// while the cursor is captured.
#[derive(Clone, Copy, Debug, PartialEq, Eq, Structural)]
pub struct MotionDelta {
    pub dx: i64,
    pub dy: i64,
}

/// The cursor state of the window that the controller itself mutates:
/// whether motion is delivered as relative deltas (captured) and whether
/// the cursor is drawn.
#[derive(Clone, Copy, Debug, PartialEq, Eq, Structural)]
pub struct CursorState {
    pub captured: bool,
    pub visible: bool,
}

/// Orbit-camera state: master switch, drag and zoom scales, orbit radius
/// and the two orbit angles. `pitch` is kept in
/// `[PITCH_MIN, PITCH_MAX]` and `distance` in
/// `[DISTANCE_MIN, DISTANCE_MAX]`; `yaw` is unbounded.
#[derive(Clone, Copy, Debug, PartialEq, Eq, Structural)]
pub struct CameraController {
    pub enabled: bool,
    pub sensitivity: i64,
    pub zoom_sensitivity: i64,
    pub distance: i64,
    pub yaw: i64,
    pub pitch: i64,
}

/// `x` clamped into `[lo, hi]`.
pub open spec fn clamped(x: int, lo: int, hi: int) -> int {
    if x < lo {
        lo
    } else if x > hi {
        hi
    } else {
        x
    }
}

/// The pitch angle after one motion event of vertical delta `dy`:
/// lowered by `dy * sens` and clamped into the pitch range.
pub open spec fn pitch_step(pitch: int, dy: int, sens: int) -> int {
    clamped(pitch - dy * sens, PITCH_MIN as int, PITCH_MAX as int)
}

/// The yaw angle after a sequence of motion events is folded
/// left-to-right: each event lowers it by `dx * sens`, unclamped.
pub open spec fn yaw_after(yaw: int, sens: int, ms: Seq<MotionDelta>) -> int
    decreases ms.len(),
{
    if ms.len() == 0 {
        yaw
    } else {
        yaw_after(yaw, sens, ms.drop_last()) - ms.last().dx * sens
    }
}

/// The pitch angle after a sequence of motion events is folded
/// left-to-right, clamped after every single event.
pub open spec fn pitch_after(pitch: int, sens: int, ms: Seq<MotionDelta>) -> int
    decreases ms.len(),
{
    if ms.len() == 0 {
        pitch
    } else {
        pitch_step(pitch_after(pitch, sens, ms.drop_last()), ms.last().dy as int, sens)
    }
}

/// The orbit radius after a sequence of scroll deltas is folded
/// left-to-right: each delta lowers it by `dy * zoom`, clamped after
/// every single event.
pub open spec fn distance_after(distance: int, zoom: int, ss: Seq<i64>) -> int
    decreases ss.len(),
{
    if ss.len() == 0 {
        distance
    } else {
        clamped(
            distance_after(distance, zoom, ss.drop_last()) - ss.last() * zoom,
            DISTANCE_MIN as int,
            DISTANCE_MAX as int,
        )
    }
}

/// Every intermediate yaw value of the fold stays representable in an
/// `i64`. Pitch and distance need no such bound: they are clamped.
pub open spec fn yaw_stays_in_i64(yaw: int, sens: int, ms: Seq<MotionDelta>) -> bool
    decreases ms.len(),
{
    if ms.len() == 0 {
        true
    } else {
        yaw_stays_in_i64(yaw, sens, ms.drop_last()) && i64::MIN <= yaw_after(yaw, sens, ms)
            <= i64::MAX
    }
}

/// The capture mode after the two button edges of a frame: the primary
/// press captures the cursor, the secondary press releases it and wins
/// when both arrive in the same frame.
pub open spec fn captured_after(c: CursorState, primary: bool, secondary: bool) -> bool {
    if secondary {
        false
    } else if primary {
        true
    } else {
        c.captured
    }
}

/// The cursor visibility after the two button edges of a frame: hidden
/// on capture, shown on release.
pub open spec fn visible_after(c: CursorState, primary: bool, secondary: bool) -> bool {
    if secondary {
        true
    } else if primary {
        false
    } else {
        c.visible
    }
}

impl CursorState {
    /// A free, visible cursor: the state before any button was pressed.
    pub fn free() -> (c: Self)
        ensures
            !c.captured,
            c.visible,
    {
        CursorState { captured: false, visible: true }
    }

    /// Applies the two button edges of one frame: the primary press
    /// enters captured mode and hides the cursor, the secondary press
    /// leaves captured mode and shows it again.
    pub fn apply_button_edges(&mut self, primary: bool, secondary: bool)
        ensures
            final(self).captured == captured_after(*old(self), primary, secondary),
            final(self).visible == visible_after(*old(self), primary, secondary),
    {
        if primary {
            self.captured = true;
            self.visible = false;
        }
        if secondary {
            self.captured = false;
            self.visible = true;
        }
    }
}

/// The product of two 64-bit values on the wide intermediate type, with
/// the bound that makes sums with a 64-bit term free of overflow.
fn mul_i64_wide(a: i64, b: i64) -> (r: i128)
    ensures
        r == a as int * b as int,
        -0x4000_0000_0000_0000_0000_0000_0000_0000 <= r
            <= 0x4000_0000_0000_0000_0000_0000_0000_0000,
{
    proof {
        assert(-0x4000_0000_0000_0000_0000_0000_0000_0000 <= (a as int) * (b as int)
            <= 0x4000_0000_0000_0000_0000_0000_0000_0000) by (nonlinear_arith)
            requires
                -0x8000_0000_0000_0000 <= a as int <= 0x7fff_ffff_ffff_ffff,
                -0x8000_0000_0000_0000 <= b as int <= 0x7fff_ffff_ffff_ffff,
        ;
    }
    (a as i128) * (b as i128)
}

/// `x` clamped into `[lo, hi]`, computed on the wide intermediate type
/// so that the unclamped value never has to fit the field type.
fn clamp_wide(x: i128, lo: i64, hi: i64) -> (r: i64)
    requires
        lo <= hi,
    ensures
        r == clamped(x as int, lo as int, hi as int),
{
    if x < lo as i128 {
        lo
    } else if x > hi as i128 {
        hi
    } else {
        x as i64
    }
}

impl Default for CameraController {
    /// The configuration the demos start from: enabled, drag scale 0.2,
    /// zoom scale 0.1, radius 5.0, yaw 0 and pitch 0.5 rad.
    fn default() -> (c: Self)
        ensures
            c.enabled,
            c.sensitivity == DEFAULT_SENSITIVITY,
            c.zoom_sensitivity == DEFAULT_ZOOM_SENSITIVITY,
            c.distance == DEFAULT_DISTANCE,
            c.yaw == DEFAULT_YAW,
            c.pitch == DEFAULT_PITCH,
            c.wf(),
    {
        CameraController {
            enabled: true,
            sensitivity: DEFAULT_SENSITIVITY,
            zoom_sensitivity: DEFAULT_ZOOM_SENSITIVITY,
            distance: DEFAULT_DISTANCE,
            yaw: DEFAULT_YAW,
            pitch: DEFAULT_PITCH,
        }
    }
}

impl CameraController {
    /// Well-formedness: pitch and distance sit inside their clamp
    /// ranges. Constructors establish this and every update keeps it.
    pub open spec fn wf(self) -> bool {
        &&& PITCH_MIN <= self.pitch <= PITCH_MAX
        &&& DISTANCE_MIN <= self.distance <= DISTANCE_MAX
    }

    /// Folds one pointer-motion event into the orbit angles. The event
    /// counts only while the controller is enabled and the cursor is
    /// captured; otherwise it is discarded, not buffered. Yaw moves
    /// unclamped, pitch is clamped into its range after the event.
    pub fn apply_motion(&mut self, captured: bool, dx: i64, dy: i64)
        requires
            old(self).enabled && captured ==> i64::MIN <= old(self).yaw - dx * old(
                self,
            ).sensitivity <= i64::MAX,
        ensures
            final(self).enabled == old(self).enabled,
            final(self).sensitivity == old(self).sensitivity,
            final(self).zoom_sensitivity == old(self).zoom_sensitivity,
            final(self).distance == old(self).distance,
            old(self).enabled && captured ==> {
                &&& final(self).yaw == old(self).yaw - dx * old(self).sensitivity
                &&& final(self).pitch == pitch_step(
                    old(self).pitch as int,
                    dy as int,
                    old(self).sensitivity as int,
                )
                &&& PITCH_MIN <= final(self).pitch <= PITCH_MAX
            },
            !(old(self).enabled && captured) ==> {
                &&& final(self).yaw == old(self).yaw
                &&& final(self).pitch == old(self).pitch
            },
    {
        if self.enabled && captured {
            let wide_yaw: i128 = self.yaw as i128 - mul_i64_wide(dx, self.sensitivity);
            self.yaw = wide_yaw as i64;
            let wide_pitch: i128 = self.pitch as i128 - mul_i64_wide(dy, self.sensitivity);
            self.pitch = clamp_wide(wide_pitch, PITCH_MIN, PITCH_MAX);
        }
    }

    /// Folds one scroll-wheel event into the orbit radius,
    /// unconditionally: zoom works regardless of the master switch and
    /// of the capture mode. The radius is clamped after the event.
    pub fn apply_scroll(&mut self, dy: i64)
        ensures
            final(self).enabled == old(self).enabled,
            final(self).sensitivity == old(self).sensitivity,
            final(self).zoom_sensitivity == old(self).zoom_sensitivity,
            final(self).yaw == old(self).yaw,
            final(self).pitch == old(self).pitch,
            final(self).distance == clamped(
                old(self).distance - dy * old(self).zoom_sensitivity,
                DISTANCE_MIN as int,
                DISTANCE_MAX as int,
            ),
            DISTANCE_MIN <= final(self).distance <= DISTANCE_MAX,
    {
        let wide: i128 = self.distance as i128 - mul_i64_wide(dy, self.zoom_sensitivity);
        self.distance = clamp_wide(wide, DISTANCE_MIN, DISTANCE_MAX);
    }

    /// One frame of the controller, in the order the demos run it:
    /// first the two button edges toggle the capture mode, then every
    /// pointer-motion delta is folded into the angles under the mode
    /// that the edges left behind, then every scroll delta is folded
    /// into the radius. Motion counts only while the controller is
    /// enabled and the cursor is captured; zoom is unconditional.
    pub fn update(
        &mut self,
        cursor: &mut CursorState,
        primary_pressed: bool,
        secondary_pressed: bool,
        motions: &Vec<MotionDelta>,
        scrolls: &Vec<i64>,
    )
        requires
            old(self).enabled && captured_after(*old(cursor), primary_pressed, secondary_pressed)
                ==> yaw_stays_in_i64(
                old(self).yaw as int,
                old(self).sensitivity as int,
                motions@,
            ),
        ensures
            final(cursor).captured == captured_after(
                *old(cursor),
                primary_pressed,
                secondary_pressed,
            ),
            final(cursor).visible == visible_after(
                *old(cursor),
                primary_pressed,
                secondary_pressed,
            ),
            final(self).enabled == old(self).enabled,
            final(self).sensitivity == old(self).sensitivity,
            final(self).zoom_sensitivity == old(self).zoom_sensitivity,
            old(self).enabled && final(cursor).captured ==> final(self).yaw == yaw_after(
                old(self).yaw as int,
                old(self).sensitivity as int,
                motions@,
            ),
            old(self).enabled && final(cursor).captured ==> final(self).pitch == pitch_after(
                old(self).pitch as int,
                old(self).sensitivity as int,
                motions@,
            ),
            !(old(self).enabled && final(cursor).captured) ==> final(self).yaw == old(self).yaw
                && final(self).pitch == old(self).pitch,
            final(self).distance == distance_after(
                old(self).distance as int,
                old(self).zoom_sensitivity as int,
                scrolls@,
            ),
            // A disabled controller never moves its angles, however many
            // motion events arrive; its radius may still change below.
            !old(self).enabled ==> final(self).yaw == old(self).yaw && final(self).pitch == old(
                self,
            ).pitch,
            // Without the cursor captured, motion events are discarded
            // even while the controller is enabled.
            !captured_after(*old(cursor), primary_pressed, secondary_pressed) ==> final(self).yaw
                == old(self).yaw && final(self).pitch == old(self).pitch,
            old(self).wf() ==> final(self).wf(),
            motions@.len() > 0 && old(self).enabled && final(cursor).captured ==> PITCH_MIN
                <= final(self).pitch <= PITCH_MAX,
            scrolls@.len() > 0 ==> DISTANCE_MIN <= final(self).distance <= DISTANCE_MAX,
    {
        cursor.apply_button_edges(primary_pressed, secondary_pressed);
        let captured = cursor.captured;
        let ghost ctrl0 = *self;
        let ghost y0 = ctrl0.yaw as int;
        let ghost p0 = ctrl0.pitch as int;
        let ghost sens = ctrl0.sensitivity as int;

        let mut i: usize = 0;
        while i < motions.len()
            invariant
                0 <= i <= motions@.len(),
                self.enabled == ctrl0.enabled,
                self.sensitivity == ctrl0.sensitivity,
                self.zoom_sensitivity == ctrl0.zoom_sensitivity,
                self.distance == ctrl0.distance,
                y0 == ctrl0.yaw as int,
                p0 == ctrl0.pitch as int,
                sens == ctrl0.sensitivity as int,
                ctrl0.enabled && captured ==> yaw_stays_in_i64(y0, sens, motions@),
                ctrl0.enabled && captured ==> self.yaw == yaw_after(
                    y0,
                    sens,
                    motions@.take(i as int),
                ),
                ctrl0.enabled && captured ==> self.pitch == pitch_after(
                    p0,
                    sens,
                    motions@.take(i as int),
                ),
                !(ctrl0.enabled && captured) ==> self.yaw == ctrl0.yaw && self.pitch == ctrl0.pitch,
            decreases motions@.len() - i,
        {
            let m = motions[i];
            proof {
                if ctrl0.enabled && captured {
                    let pre = motions@.take(i as int);
                    let post = motions@.take(i as int + 1);
                    lemma_yaw_stays_in_i64_take(y0, sens, motions@, i as int + 1);
                    assert(post.drop_last() =~= pre);
                    assert(post.last() == motions@[i as int]);
                    assert(yaw_after(y0, sens, post) == yaw_after(y0, sens, pre) - motions@[
                        i as int
                    ].dx * sens);
                    assert(pitch_after(p0, sens, post) == pitch_step(
                        pitch_after(p0, sens, pre),
                        motions@[i as int].dy as int,
                        sens,
                    ));
                    assert(yaw_stays_in_i64(y0, sens, post));
                    assert(i64::MIN <= yaw_after(y0, sens, post) <= i64::MAX);
                }
            }
            self.apply_motion(captured, m.dx, m.dy);
            i = i + 1;
        }
        proof {
            assert(motions@.take(motions@.len() as int) =~= motions@);
        }

        let ghost mid = *self;
        let ghost d0 = ctrl0.distance as int;
        let ghost zoom = ctrl0.zoom_sensitivity as int;
        let mut j: usize = 0;
        while j < scrolls.len()
            invariant
                0 <= j <= scrolls@.len(),
                self.enabled == mid.enabled,
                self.sensitivity == mid.sensitivity,
                self.zoom_sensitivity == mid.zoom_sensitivity,
                self.yaw == mid.yaw,
                self.pitch == mid.pitch,
                mid.distance == ctrl0.distance,
                d0 == ctrl0.distance as int,
                zoom == mid.zoom_sensitivity as int,
                self.distance == distance_after(d0, zoom, scrolls@.take(j as int)),
            decreases scrolls@.len() - j,
        {
            let d = scrolls[j];
            proof {
                assert(scrolls@.take(j as int + 1).drop_last() =~= scrolls@.take(j as int));
                assert(scrolls@.take(j as int + 1).last() == scrolls@[j as int]);
            }
            self.apply_scroll(d);
            j = j + 1;
        }
        proof {
            assert(scrolls@.take(scrolls@.len() as int) =~= scrolls@);
        }
    }
}

/// Every prefix of a motion sequence whose yaw fold stays representable
/// has a yaw fold that stays representable itself.
proof fn lemma_yaw_stays_in_i64_take(yaw: int, sens: int, ms: Seq<MotionDelta>, i: int)
    requires
        yaw_stays_in_i64(yaw, sens, ms),
        0 <= i <= ms.len(),
    ensures
        yaw_stays_in_i64(yaw, sens, ms.take(i)),
    decreases ms.len(),
{
    if i == ms.len() {
        assert(ms.take(i) =~= ms);
    } else {
        assert(ms.take(i) =~= ms.drop_last().take(i));
        lemma_yaw_stays_in_i64_take(yaw, sens, ms.drop_last(), i);
    }
}

/// However long the motion sequence and however large or signed its
/// deltas, a pitch that starts inside the clamp range ends inside it.
pub proof fn lemma_pitch_stays_in_range(pitch: int, sens: int, ms: Seq<MotionDelta>)
    requires
        PITCH_MIN <= pitch <= PITCH_MAX,
    ensures
        PITCH_MIN <= pitch_after(pitch, sens, ms) <= PITCH_MAX,
    decreases ms.len(),
{
    if ms.len() > 0 {
        lemma_pitch_stays_in_range(pitch, sens, ms.drop_last());
    }
}

/// However long the scroll sequence and however large or signed its
/// deltas, a radius that starts inside the clamp range ends inside it.
pub proof fn lemma_distance_stays_in_range(distance: int, zoom: int, ss: Seq<i64>)
    requires
        DISTANCE_MIN <= distance <= DISTANCE_MAX,
    ensures
        DISTANCE_MIN <= distance_after(distance, zoom, ss) <= DISTANCE_MAX,
    decreases ss.len(),
{
    if ss.len() > 0 {
        lemma_distance_stays_in_range(distance, zoom, ss.drop_last());
    }
}

} // verus!
