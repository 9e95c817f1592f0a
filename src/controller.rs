use vstd::prelude::*;

use crate::tracker::{MouseMovementTracker, PixelVec, PointerMove};

verus! {

/// The pointer button that a pointer-down event reports.
#[derive(Clone, Copy, Debug, PartialEq, Eq, Structural)]
pub enum PointerButton {
    Primary,
    Auxiliary,
    Secondary,
    Other,
}

/// The two kinds of gesture: orbiting around the orbit point, and sidling
/// (panning in the view plane, carrying the orbit point along).
#[derive(Clone, Copy, Debug, PartialEq, Eq, Structural)]
pub enum SessionKind {
    Orbit,
    Sidle,
}

/// One gesture in progress: its kind, the pointer-locked tracker that
/// accumulates its movement, and the camera transform when it began.
#[derive(Debug)]
pub struct Session<T> {
    kind: SessionKind,
    tracker: MouseMovementTracker,
    initial: T,
}

impl<T: Copy> Session<T> {
    pub closed spec fn kind_spec(&self) -> SessionKind {
        self.kind
    }

    pub closed spec fn tracker_spec(&self) -> MouseMovementTracker {
        self.tracker
    }

    pub closed spec fn initial_spec(&self) -> T {
        self.initial
    }

    pub fn kind(&self) -> (r: SessionKind)
        ensures
            r == self.kind_spec(),
    {
        self.kind
    }

    pub fn tracker(&self) -> (r: &MouseMovementTracker)
        ensures
            *r == self.tracker_spec(),
    {
        &self.tracker
    }

    pub fn initial(&self) -> (r: T)
        ensures
            r == self.initial_spec(),
    {
        self.initial
    }
}

/// What one frame's update asks of the camera transform.
///
/// - `Orbit`: rotate `initial` about the orbit point, first by `yaw` about the
///   world up axis, then by `pitch` about the right axis of the yawed
///   orientation; both angles are in units of pi/400.
/// - `Sidle`: translate the position and the orbit point of `initial` by
///   `up` times its up vector plus `right` times its right vector, both in
///   80ths.
/// - `Dolly`: move the position of `from` toward its orbit point by
///   `wheel_delta` millionths of the direction, where `dolly_applies` allows.
#[derive(Clone, Copy, Debug, PartialEq)]
pub enum CameraCommand<T> {
    Orbit { initial: T, yaw: i64, pitch: i64 },
    Sidle { initial: T, up: i64, right: i64 },
    Dolly { from: T, wheel_delta: i64 },
}

/// What a pointer-down or pointer-up did to the pointer capture.
#[derive(Clone, Copy, Debug, PartialEq, Eq, Structural)]
pub struct CaptureChange {
    /// The capture of the session that ended must be released.
    pub released: bool,
    /// A new session needs the pointer captured.
    pub acquired: bool,
}

/// The command that a session's transform follows: a pure function of the
/// session's snapshot and its accumulated movement.
pub open spec fn session_command<T: Copy>(s: Session<T>) -> CameraCommand<T> {
    let m = s.tracker_spec().movement_spec();
    match s.kind_spec() {
        SessionKind::Orbit => CameraCommand::Orbit {
            initial: s.initial_spec(),
            yaw: -(m.x as int) as i64,
            pitch: -(m.y as int) as i64,
        },
        SessionKind::Sidle => CameraCommand::Sidle {
            initial: s.initial_spec(),
            up: m.y as i64,
            right: -(m.x as int) as i64,
        },
    }
}

/// The wheel accumulator after adding `delta`, held at the bounds of `i64`.
pub open spec fn saturating_sum(a: i64, delta: i64) -> i64 {
    if a + delta > i64::MAX {
        i64::MAX
    } else if a + delta < i64::MIN {
        i64::MIN
    } else {
        (a + delta) as i64
    }
}

/// 1 while a session holds the pointer capture, 0 otherwise.
pub open spec fn capture_held<T: Copy>(c: CameraController<T>) -> int {
    if c.session_spec() is Some {
        1
    } else {
        0
    }
}

/// A transition accounts for the capture: it releases only a capture that
/// was held, acquires only for a session it starts, and the capture held
/// changes by exactly what it acquired minus what it released.
pub open spec fn capture_step<T: Copy>(
    before: CameraController<T>,
    after: CameraController<T>,
    change: CaptureChange,
) -> bool {
    &&& change.released ==> before.session_spec() is Some
    &&& change.acquired ==> after.session_spec() is Some
    &&& capture_held(after) - capture_held(before) == (if change.acquired {
        1int
    } else {
        0
    }) - (if change.released {
        1int
    } else {
        0
    })
}

/// Number of captures acquired minus number released over `changes`.
pub open spec fn capture_balance(changes: Seq<CaptureChange>) -> int
    decreases changes.len(),
{
    if changes.len() == 0 {
        0
    } else {
        capture_balance(changes.drop_last()) + (if changes.last().acquired {
            1int
        } else {
            0
        }) - (if changes.last().released {
            1int
        } else {
            0
        })
    }
}

/// Over any run of transitions from an idle controller, every capture that
/// was acquired has been released exactly once, except the one that a session
/// still in progress holds; no capture is ever released twice.
pub proof fn lemma_capture_released_once<T: Copy>(
    states: Seq<CameraController<T>>,
    changes: Seq<CaptureChange>,
)
    requires
        states.len() == changes.len() + 1,
        states[0].session_spec() is None,
        forall|i: int|
            0 <= i < changes.len() ==> capture_step(states[i], states[i + 1], #[trigger] changes[i]),
    ensures
        capture_balance(changes) == capture_held(states.last()),
        0 <= capture_balance(changes) <= 1,
    decreases changes.len(),
{
    if changes.len() > 0 {
        let n = changes.len() as int;
        assert forall|i: int| 0 <= i < n - 1 implies capture_step(
            states.drop_last()[i],
            states.drop_last()[i + 1],
            #[trigger] changes.drop_last()[i],
        ) by {
            assert(capture_step(states[i], states[i + 1], changes[i]));
        }
        lemma_capture_released_once(states.drop_last(), changes.drop_last());
        assert(capture_step(states[n - 1], states[n], changes[n - 1]));
    }
}

/// The relation between the controller before and after `update_camera`,
/// and the command it returns.
pub open spec fn updated<T: Copy>(
    before: CameraController<T>,
    after: CameraController<T>,
    r: CameraCommand<T>,
) -> bool {
    &&& after.transform_spec() == before.transform_spec()
    &&& after.session_spec() == before.session_spec()
    &&& match before.session_spec() {
        Some(s) => {
            &&& r == session_command(s)
            &&& after.wheel_delta_spec() == 0
        },
        None => {
            &&& r == (CameraCommand::Dolly {
                from: before.transform_spec(),
                wheel_delta: before.wheel_delta_spec(),
            })
            &&& after.wheel_delta_spec() == 0
        },
    }
}

/// During a session, updating twice with no input in between gives the same
/// command twice; only the wheel accumulator changes, to zero.
pub proof fn lemma_session_update_repeats<T: Copy>(
    c0: CameraController<T>,
    c1: CameraController<T>,
    c2: CameraController<T>,
    r1: CameraCommand<T>,
    r2: CameraCommand<T>,
)
    requires
        c0.session_spec() is Some,
        updated(c0, c1, r1),
        updated(c1, c2, r2),
    ensures
        r1 == r2,
        c2.transform_spec() == c0.transform_spec(),
        c2.session_spec() == c0.session_spec(),
        c1.wheel_delta_spec() == 0,
        c2.wheel_delta_spec() == 0,
{
}

/// The wheel accumulator is zero after every update, with or without a
/// session, and whether or not the dolly step it commands is then taken;
/// without a session the accumulated movement becomes that dolly command.
pub proof fn lemma_update_consumes_wheel<T: Copy>(
    c0: CameraController<T>,
    c1: CameraController<T>,
    r: CameraCommand<T>,
)
    requires
        updated(c0, c1, r),
    ensures
        c1.wheel_delta_spec() == 0,
        c0.session_spec() is None ==> r == (CameraCommand::Dolly {
            from: c0.transform_spec(),
            wheel_delta: c0.wheel_delta_spec(),
        }),
{
}

/// An orbit session whose pointer has no net movement commands the identity
/// rotation of the snapshot taken when it began.
pub proof fn lemma_still_orbit_is_identity<T: Copy>(s: Session<T>)
    requires
        s.kind_spec() == SessionKind::Orbit,
        s.tracker_spec().movement_spec() == (PixelVec { x: 0, y: 0 }),
    ensures
        session_command(s) == (CameraCommand::Orbit { initial: s.initial_spec(), yaw: 0, pitch: 0 }),
{
}

/// Pointer-driven camera navigation: at most one orbit or sidle session at a
/// time, and a wheel accumulator for dollying. `T` is the camera transform
/// (position, orientation and orbit point), which the controller carries and
/// snapshots but never computes on.
pub struct CameraController<T> {
    transform: T,
    wheel_delta: i64,
    session: Option<Session<T>>,
}

impl<T: Copy> CameraController<T> {
    pub closed spec fn transform_spec(&self) -> T {
        self.transform
    }

    /// Accumulated wheel movement, in thousandths of the host's wheel unit.
    pub closed spec fn wheel_delta_spec(&self) -> i64 {
        self.wheel_delta
    }

    pub closed spec fn session_spec(&self) -> Option<Session<T>> {
        self.session
    }

    /// Whether a pointer move can be recorded without leaving `i32`.
    pub open spec fn accepts_move_spec(&self, e: PointerMove) -> bool {
        match self.session_spec() {
            Some(s) => s.tracker_spec().can_record_spec(e),
            None => true,
        }
    }

    /// A controller seeded with the camera's transform, idle, with no wheel
    /// movement.
    pub fn init(transform: T) -> (r: CameraController<T>)
        ensures
            r.transform_spec() == transform,
            r.wheel_delta_spec() == 0,
            r.session_spec() is None,
    {
        CameraController { transform, wheel_delta: 0, session: None }
    }

    pub fn transform(&self) -> (r: T)
        ensures
            r == self.transform_spec(),
    {
        self.transform
    }

    pub fn wheel_delta(&self) -> (r: i64)
        ensures
            r == self.wheel_delta_spec(),
    {
        self.wheel_delta
    }

    pub fn session(&self) -> (r: &Option<Session<T>>)
        ensures
            *r == self.session_spec(),
    {
        &self.session
    }

    /// Sets the transform that the camera now has, as computed from the last
    /// command.
    pub fn set_transform(&mut self, transform: T)
        ensures
            final(self).transform_spec() == transform,
            final(self).wheel_delta_spec() == old(self).wheel_delta_spec(),
            final(self).session_spec() == old(self).session_spec(),
            capture_step(*old(self), *final(self), CaptureChange { released: false, acquired: false }),
    {
        self.transform = transform;
    }

    /// A pointer button went down. From idle, the secondary button starts an
    /// orbit session and the auxiliary button a sidle session, each needing
    /// the pointer captured. While a session is in progress a new gesture has
    /// no effect, and other buttons never do.
    pub fn pointer_down(&mut self, button: PointerButton) -> (r: CaptureChange)
        ensures
            final(self).transform_spec() == old(self).transform_spec(),
            final(self).wheel_delta_spec() == old(self).wheel_delta_spec(),
            capture_step(*old(self), *final(self), r),
            !r.released,
            if old(self).session_spec() is None && (button == PointerButton::Secondary || button
                == PointerButton::Auxiliary) {
                &&& r == (CaptureChange { released: false, acquired: true })
                &&& final(self).session_spec() matches Some(s)
                &&& s.kind_spec() == (if button == PointerButton::Secondary {
                    SessionKind::Orbit
                } else {
                    SessionKind::Sidle
                })
                &&& s.initial_spec() == old(self).transform_spec()
                &&& s.tracker_spec() == MouseMovementTracker::pointer_locked_spec()
                &&& s.tracker_spec().movement_spec() == (PixelVec { x: 0, y: 0 })
                &&& s.tracker_spec().origin_spec() is None
                &&& s.tracker_spec().pointer_lock_spec()
            } else {
                &&& r == (CaptureChange { released: false, acquired: false })
                &&& final(self).session_spec() == old(self).session_spec()
            },
    {
        if self.session.is_some() {
            return CaptureChange { released: false, acquired: false };
        }
        let kind = match button {
            PointerButton::Secondary => SessionKind::Orbit,
            PointerButton::Auxiliary => SessionKind::Sidle,
            _ => {
                return CaptureChange { released: false, acquired: false };
            },
        };
        self.session = Some(
            Session { kind, tracker: MouseMovementTracker::pointer_locked(), initial: self.transform },
        );
        CaptureChange { released: false, acquired: true }
    }

    /// A pointer button went up: the session in progress, if any, ends and
    /// its capture is released.
    pub fn pointer_up(&mut self) -> (r: CaptureChange)
        ensures
            r == (CaptureChange { released: old(self).session_spec() is Some, acquired: false }),
            capture_step(*old(self), *final(self), r),
            final(self).session_spec() is None,
            final(self).transform_spec() == old(self).transform_spec(),
            final(self).wheel_delta_spec() == old(self).wheel_delta_spec(),
    {
        let released = self.session.is_some();
        self.session = None;
        CaptureChange { released, acquired: false }
    }

    /// Whether `pointer_move` accepts `e`.
    pub fn accepts_move(&self, e: &PointerMove) -> (r: bool)
        ensures
            r == self.accepts_move_spec(*e),
    {
        match &self.session {
            Some(s) => s.tracker.can_record(e),
            None => true,
        }
    }

    /// The pointer moved: the session in progress, if any, records it.
    pub fn pointer_move(&mut self, e: &PointerMove)
        requires
            old(self).accepts_move_spec(*e),
        ensures
            capture_step(*old(self), *final(self), CaptureChange { released: false, acquired: false }),
            final(self).transform_spec() == old(self).transform_spec(),
            final(self).wheel_delta_spec() == old(self).wheel_delta_spec(),
            match old(self).session_spec() {
                Some(s) => final(self).session_spec() matches Some(t) && t.kind_spec()
                    == s.kind_spec() && t.initial_spec() == s.initial_spec() && t.tracker_spec()
                    == s.tracker_spec().record_spec(*e),
                None => final(self).session_spec() is None,
            },
    {
        match &mut self.session {
            Some(s) => {
                s.tracker.record(e);
            },
            None => {},
        }
    }

    /// The wheel turned by `delta`: it is accumulated, not applied.
    pub fn wheel(&mut self, delta: i64)
        ensures
            final(self).wheel_delta_spec() == saturating_sum(old(self).wheel_delta_spec(), delta),
            final(self).transform_spec() == old(self).transform_spec(),
            final(self).session_spec() == old(self).session_spec(),
            capture_step(*old(self), *final(self), CaptureChange { released: false, acquired: false }),
    {
        let sum = self.wheel_delta as i128 + delta as i128;
        self.wheel_delta = if sum > i64::MAX as i128 {
            i64::MAX
        } else if sum < i64::MIN as i128 {
            i64::MIN
        } else {
            sum as i64
        };
    }

    /// The per-frame update. With a session in progress the command is
    /// recomputed from the session's snapshot and its total movement, so
    /// repeating the call repeats the command. Without one, the accumulated
    /// wheel movement becomes a dolly command. Either way the wheel
    /// accumulator is reset to zero: wheel input is consumed once per call.
    pub fn update_camera(&mut self) -> (r: CameraCommand<T>)
        ensures
            updated(*old(self), *final(self), r),
            capture_step(*old(self), *final(self), CaptureChange { released: false, acquired: false }),
    {
        let wheel_delta = self.wheel_delta;
        self.wheel_delta = 0;
        match &self.session {
            Some(s) => {
                let m = s.tracker.movement();
                match s.kind {
                    SessionKind::Orbit => CameraCommand::Orbit {
                        initial: s.initial,
                        yaw: -(m.x as i64),
                        pitch: -(m.y as i64),
                    },
                    SessionKind::Sidle => CameraCommand::Sidle {
                        initial: s.initial,
                        up: m.y as i64,
                        right: -(m.x as i64),
                    },
                }
            },
            None => CameraCommand::Dolly { from: self.transform, wheel_delta },
        }
    }
}

/// Whether a dolly step is taken: only when the translation is shorter than
/// the distance to the orbit point, or when it moves away from the orbit
/// point (a negative wheel delta). Moving away is never blocked; moving past
/// the orbit point always is.
pub fn dolly_applies(wheel_delta: i64, shorter_than_distance: bool) -> (r: bool)
    ensures
        r == (shorter_than_distance || wheel_delta < 0),
        wheel_delta < 0 ==> r,
        wheel_delta > 0 && !shorter_than_distance ==> !r,
{
    shorter_than_distance || wheel_delta < 0
}

} // verus!
