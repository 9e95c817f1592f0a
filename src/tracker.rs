use vstd::prelude::*;

verus! {

/// A two-dimensional integer vector in screen pixels.
#[derive(Clone, Copy, Debug, PartialEq, Eq, Structural)]
pub struct PixelVec {
    pub x: i32,
    pub y: i32,
}

/// What one pointer-move event reports: where the pointer is relative to the
/// target, how far it moved since the previous event, and the modifier keys.
#[derive(Clone, Copy, Debug, PartialEq, Eq, Structural)]
pub struct PointerMove {
    pub offset: PixelVec,
    pub delta: PixelVec,
    pub ctrl_key: bool,
    pub shift_key: bool,
    pub alt_key: bool,
    pub meta_key: bool,
}

pub open spec fn in_i32(v: int) -> bool {
    i32::MIN <= v <= i32::MAX
}

/// Accumulated pointer movement of one gesture.
///
/// In free mode the first event fixes an origin (its offset minus its delta),
/// and `movement` is afterwards the offset relative to that origin. In locked
/// mode the pointer is captured and `movement` is the sum of all deltas.
#[derive(Clone, Copy, Debug)]
pub struct MouseMovementTracker {
    movement: PixelVec,
    origin: Option<PixelVec>,
    ctrl_key: bool,
    shift_key: bool,
    alt_key: bool,
    meta_key: bool,
    pointer_lock: bool,
}

impl MouseMovementTracker {
    pub closed spec fn movement_spec(&self) -> PixelVec {
        self.movement
    }

    pub closed spec fn origin_spec(&self) -> Option<PixelVec> {
        self.origin
    }

    pub closed spec fn pointer_lock_spec(&self) -> bool {
        self.pointer_lock
    }

    pub closed spec fn modifiers_spec(&self) -> (bool, bool, bool, bool) {
        (self.ctrl_key, self.shift_key, self.alt_key, self.meta_key)
    }

    /// Whether recording `e` keeps every coordinate within `i32`.
    pub open spec fn can_record_spec(&self, e: PointerMove) -> bool {
        if self.pointer_lock_spec() {
            in_i32(self.movement_spec().x + e.delta.x) && in_i32(self.movement_spec().y + e.delta.y)
        } else {
            match self.origin_spec() {
                Some(o) => in_i32(e.offset.x - o.x) && in_i32(e.offset.y - o.y),
                None => in_i32(e.offset.x - e.delta.x) && in_i32(e.offset.y - e.delta.y),
            }
        }
    }

    /// The tracker after recording `e`.
    pub closed spec fn record_spec(self, e: PointerMove) -> MouseMovementTracker {
        let (movement, origin) = if self.pointer_lock {
            (
                PixelVec {
                    x: (self.movement.x + e.delta.x) as i32,
                    y: (self.movement.y + e.delta.y) as i32,
                },
                self.origin,
            )
        } else {
            match self.origin {
                Some(o) => (
                    PixelVec { x: (e.offset.x - o.x) as i32, y: (e.offset.y - o.y) as i32 },
                    self.origin,
                ),
                None => (
                    e.delta,
                    Some(
                        PixelVec {
                            x: (e.offset.x - e.delta.x) as i32,
                            y: (e.offset.y - e.delta.y) as i32,
                        },
                    ),
                ),
            }
        };
        MouseMovementTracker {
            movement,
            origin,
            ctrl_key: e.ctrl_key,
            shift_key: e.shift_key,
            alt_key: e.alt_key,
            meta_key: e.meta_key,
            pointer_lock: self.pointer_lock,
        }
    }

    pub closed spec fn pointer_locked_spec() -> MouseMovementTracker {
        MouseMovementTracker {
            movement: PixelVec { x: 0, y: 0 },
            origin: None,
            ctrl_key: false,
            shift_key: false,
            alt_key: false,
            meta_key: false,
            pointer_lock: true,
        }
    }

    pub closed spec fn new_spec() -> MouseMovementTracker {
        MouseMovementTracker {
            movement: PixelVec { x: 0, y: 0 },
            origin: None,
            ctrl_key: false,
            shift_key: false,
            alt_key: false,
            meta_key: false,
            pointer_lock: false,
        }
    }

    /// A free-mode tracker that has seen no event.
    pub fn new() -> (r: MouseMovementTracker)
        ensures
            r == Self::new_spec(),
            r.movement_spec() == (PixelVec { x: 0, y: 0 }),
            r.origin_spec() is None,
            !r.pointer_lock_spec(),
            r.modifiers_spec() == (false, false, false, false),
    {
        MouseMovementTracker {
            movement: PixelVec { x: 0, y: 0 },
            origin: None,
            ctrl_key: false,
            shift_key: false,
            alt_key: false,
            meta_key: false,
            pointer_lock: false,
        }
    }

    /// A locked-mode tracker that has seen no event. Whoever holds it holds
    /// the pointer capture until the tracker is released.
    pub fn pointer_locked() -> (r: MouseMovementTracker)
        ensures
            r == Self::pointer_locked_spec(),
            r.movement_spec() == (PixelVec { x: 0, y: 0 }),
            r.origin_spec() is None,
            r.pointer_lock_spec(),
            r.modifiers_spec() == (false, false, false, false),
    {
        MouseMovementTracker {
            movement: PixelVec { x: 0, y: 0 },
            origin: None,
            ctrl_key: false,
            shift_key: false,
            alt_key: false,
            meta_key: false,
            pointer_lock: true,
        }
    }

    /// Whether `record` accepts `e`, that is whether no coordinate leaves `i32`.
    pub fn can_record(&self, e: &PointerMove) -> (r: bool)
        ensures
            r == self.can_record_spec(*e),
    {
        if self.pointer_lock {
            let x = self.movement.x as i64 + e.delta.x as i64;
            let y = self.movement.y as i64 + e.delta.y as i64;
            i32::MIN as i64 <= x && x <= i32::MAX as i64 && i32::MIN as i64 <= y && y
                <= i32::MAX as i64
        } else {
            let (x, y) = match self.origin {
                Some(o) => (e.offset.x as i64 - o.x as i64, e.offset.y as i64 - o.y as i64),
                None => (e.offset.x as i64 - e.delta.x as i64, e.offset.y as i64 - e.delta.y as i64),
            };
            i32::MIN as i64 <= x && x <= i32::MAX as i64 && i32::MIN as i64 <= y && y
                <= i32::MAX as i64
        }
    }

    /// Records one pointer-move event.
    pub fn record(&mut self, e: &PointerMove)
        requires
            old(self).can_record_spec(*e),
        ensures
            *final(self) == old(self).record_spec(*e),
            final(self).pointer_lock_spec() == old(self).pointer_lock_spec(),
            final(self).modifiers_spec() == (e.ctrl_key, e.shift_key, e.alt_key, e.meta_key),
            old(self).pointer_lock_spec() ==> {
                &&& final(self).movement_spec().x == old(self).movement_spec().x + e.delta.x
                &&& final(self).movement_spec().y == old(self).movement_spec().y + e.delta.y
                &&& final(self).origin_spec() == old(self).origin_spec()
            },
            !old(self).pointer_lock_spec() ==> match old(self).origin_spec() {
                Some(o) => {
                    &&& final(self).movement_spec().x == e.offset.x - o.x
                    &&& final(self).movement_spec().y == e.offset.y - o.y
                    &&& final(self).origin_spec() == Some(o)
                },
                None => {
                    &&& final(self).movement_spec() == e.delta
                    &&& final(self).origin_spec() matches Some(o) && o.x == e.offset.x - e.delta.x
                        && o.y == e.offset.y - e.delta.y
                },
            },
    {
        if self.pointer_lock {
            self.movement = PixelVec {
                x: self.movement.x + e.delta.x,
                y: self.movement.y + e.delta.y,
            };
        } else {
            match self.origin {
                Some(o) => {
                    self.movement = PixelVec { x: e.offset.x - o.x, y: e.offset.y - o.y };
                },
                None => {
                    self.origin = Some(
                        PixelVec { x: e.offset.x - e.delta.x, y: e.offset.y - e.delta.y },
                    );
                    self.movement = e.delta;
                },
            }
        }
        self.ctrl_key = e.ctrl_key;
        self.shift_key = e.shift_key;
        self.alt_key = e.alt_key;
        self.meta_key = e.meta_key;
    }

    pub fn movement(&self) -> (r: PixelVec)
        ensures
            r == self.movement_spec(),
    {
        self.movement
    }

    pub fn ctrl_key(&self) -> (r: bool)
        ensures
            r == self.modifiers_spec().0,
    {
        self.ctrl_key
    }

    pub fn shift_key(&self) -> (r: bool)
        ensures
            r == self.modifiers_spec().1,
    {
        self.shift_key
    }

    pub fn alt_key(&self) -> (r: bool)
        ensures
            r == self.modifiers_spec().2,
    {
        self.alt_key
    }

    pub fn meta_key(&self) -> (r: bool)
        ensures
            r == self.modifiers_spec().3,
    {
        self.meta_key
    }

    /// Whether dropping this tracker must release the pointer capture.
    pub fn holds_pointer_lock(&self) -> (r: bool)
        ensures
            r == self.pointer_lock_spec(),
    {
        self.pointer_lock
    }
}

/// The tracker after recording `events` in order.
pub open spec fn replay(t: MouseMovementTracker, events: Seq<PointerMove>) -> MouseMovementTracker
    decreases events.len(),
{
    if events.len() == 0 {
        t
    } else {
        replay(t, events.drop_last()).record_spec(events.last())
    }
}

/// Whether `record` accepts each of `events` in turn.
pub open spec fn replayable(t: MouseMovementTracker, events: Seq<PointerMove>) -> bool {
    forall|i: int|
        0 <= i < events.len() ==> #[trigger] replay(t, events.take(i)).can_record_spec(events[i])
}

/// The sum of the deltas of `events`.
pub open spec fn delta_sum(events: Seq<PointerMove>) -> (int, int)
    decreases events.len(),
{
    if events.len() == 0 {
        (0, 0)
    } else {
        let (x, y) = delta_sum(events.drop_last());
        (x + events.last().delta.x, y + events.last().delta.y)
    }
}

proof fn lemma_replayable_prefix(t: MouseMovementTracker, events: Seq<PointerMove>)
    requires
        events.len() > 0,
        replayable(t, events),
    ensures
        replayable(t, events.drop_last()),
        replay(t, events.drop_last()).can_record_spec(events.last()),
{
    let d = events.drop_last();
    assert forall|i: int| 0 <= i < d.len() implies #[trigger] replay(t, d.take(i)).can_record_spec(
        d[i],
    ) by {
        assert(d.take(i) =~= events.take(i));
        assert(replay(t, events.take(i)).can_record_spec(events[i]));
    }
    assert(events.take(events.len() - 1) =~= d);
    assert(replay(t, events.take(events.len() - 1)).can_record_spec(events[events.len() - 1]));
}

/// A pointer-locked tracker never resets: its movement is the sum of every
/// delta recorded since the capture began.
pub proof fn lemma_locked_movement_is_total(events: Seq<PointerMove>)
    requires
        replayable(MouseMovementTracker::pointer_locked_spec(), events),
    ensures
        replay(MouseMovementTracker::pointer_locked_spec(), events).pointer_lock_spec(),
        replay(MouseMovementTracker::pointer_locked_spec(), events).movement_spec().x == delta_sum(
            events,
        ).0,
        replay(MouseMovementTracker::pointer_locked_spec(), events).movement_spec().y == delta_sum(
            events,
        ).1,
    decreases events.len(),
{
    if events.len() > 0 {
        lemma_replayable_prefix(MouseMovementTracker::pointer_locked_spec(), events);
        lemma_locked_movement_is_total(events.drop_last());
    }
}

/// In free mode the first event fixes the origin at its offset minus its
/// delta; from then on the movement is the latest offset relative to that
/// origin.
pub proof fn lemma_free_movement_is_offset(events: Seq<PointerMove>)
    requires
        events.len() > 0,
        replayable(MouseMovementTracker::new_spec(), events),
    ensures
        !replay(MouseMovementTracker::new_spec(), events).pointer_lock_spec(),
        replay(MouseMovementTracker::new_spec(), events).origin_spec() matches Some(o) && o.x
            == events[0].offset.x - events[0].delta.x && o.y == events[0].offset.y
            - events[0].delta.y,
        replay(MouseMovementTracker::new_spec(), events).movement_spec().x == events.last().offset.x
            - (events[0].offset.x - events[0].delta.x),
        replay(MouseMovementTracker::new_spec(), events).movement_spec().y == events.last().offset.y
            - (events[0].offset.y - events[0].delta.y),
    decreases events.len(),
{
    let t = MouseMovementTracker::new_spec();
    lemma_replayable_prefix(t, events);
    assert(events.take(0) =~= Seq::<PointerMove>::empty());
    assert(replay(t, events.take(0)) == t);
    assert(replay(t, events.take(0)).can_record_spec(events[0]));
    if events.len() == 1 {
        assert(events.drop_last() =~= Seq::<PointerMove>::empty());
    } else {
        lemma_free_movement_is_offset(events.drop_last());
        assert(events.drop_last()[0] == events[0]);
    }
}

} // verus!
