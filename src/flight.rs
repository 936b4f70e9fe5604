use vstd::prelude::*;
use vstd::arithmetic::div_mod::lemma_div_multiples_vanish;
use crate::geometry::{Vec2, COORD_LIMIT};

verus! {

/// Library units in one world unit.
pub const UNITS_PER_WORLD_UNIT: i64 = 5000;

/// The length of a direction vector that stands for one.
pub const DIRECTION_SCALE: i64 = 1000;

/// Speed of a bubble in flight, in world units per second.
pub const BUBBLE_SPEED: i64 = 200;

pub const MILLIS_PER_SECOND: i64 = 1000;

/// Radius of every bubble, in library units (8 world units).
pub const BUBBLE_RADIUS: i64 = 8 * UNITS_PER_WORLD_UNIT;

/// Distance from the launcher's centre to the bubble it carries, in library
/// units (26 world units).
pub const SHOOTER_ORBIT: i64 = 26 * UNITS_PER_WORLD_UNIT;

#[derive(Clone, Copy, Debug, PartialEq, Eq, Structural)]
pub enum BubbleColor {
    Blue,
    Red,
    Purple,
    Grey,
    Yellow,
    Green,
    Silver,
}

#[derive(Clone, Copy, Debug, PartialEq, Eq, Structural)]
pub struct Bubble(pub BubbleColor);

/// The bubble that the launcher carries, ready to be fired.
#[derive(Clone, Copy, Debug, PartialEq, Eq, Structural)]
pub struct ShooterBubble {
    pub bubble: Bubble,
}

/// A travel direction in fixed point: a unit vector has length
/// `DIRECTION_SCALE`.
#[derive(Clone, Copy, Debug, PartialEq, Eq, Structural)]
pub struct Direction(pub Vec2);

impl Direction {
    /// Each component lies within `[-DIRECTION_SCALE, DIRECTION_SCALE]`, as
    /// those of a unit vector do.
    pub open spec fn wf(self) -> bool {
        &&& -DIRECTION_SCALE <= self.0.x <= DIRECTION_SCALE
        &&& -DIRECTION_SCALE <= self.0.y <= DIRECTION_SCALE
    }
}

/// A bubble in flight, with its position relative to the launcher.
#[derive(Clone, Copy, Debug, PartialEq, Eq, Structural)]
pub struct ShootedBubble {
    pub bubble: Bubble,
    pub position: Vec2,
    pub direction: Direction,
}

/// Distance in library units covered in `dt_ms` milliseconds along a
/// direction component `d`, at `BUBBLE_SPEED`.
pub open spec fn travel(d: int, dt_ms: int) -> int {
    d * BUBBLE_SPEED * UNITS_PER_WORLD_UNIT * dt_ms / (DIRECTION_SCALE * MILLIS_PER_SECOND)
}

/// The units are chosen so that travel is exact: `d` units per millisecond.
proof fn lemma_travel_exact(d: int, dt_ms: int)
    ensures
        travel(d, dt_ms) == d * dt_ms,
{
    assert(d * BUBBLE_SPEED * UNITS_PER_WORLD_UNIT * dt_ms == 1000000 * (d * dt_ms))
        by (nonlinear_arith);
    lemma_div_multiples_vanish(d * dt_ms, 1000000);
}

/// The position `dt_ms` milliseconds further along a bubble's direction.
pub open spec fn advanced(b: ShootedBubble, dt_ms: int) -> (int, int) {
    (
        b.position.x + travel(b.direction.0.x as int, dt_ms),
        b.position.y + travel(b.direction.0.y as int, dt_ms),
    )
}

impl ShootedBubble {
    pub open spec fn wf(self) -> bool {
        self.position.in_field() && self.direction.wf()
    }

    /// The bubble after `dt_ms` milliseconds of flight. A bubble whose next
    /// position would leave the field that the library can represent stays
    /// where it is.
    pub open spec fn moved(self, dt_ms: int) -> ShootedBubble {
        let (nx, ny) = advanced(self, dt_ms);
        if -COORD_LIMIT <= nx <= COORD_LIMIT && -COORD_LIMIT <= ny <= COORD_LIMIT {
            ShootedBubble { position: Vec2 { x: nx as i64, y: ny as i64 }, ..self }
        } else {
            self
        }
    }

    /// One integration step: `position += direction * speed * dt`.
    pub fn advance(&mut self, dt_ms: u32)
        requires
            old(self).wf(),
        ensures
            final(self).wf(),
            *final(self) == old(self).moved(dt_ms as int),
    {
        let dx = self.direction.0.x;
        let dy = self.direction.0.y;
        let dt = dt_ms as i64;
        proof {
            lemma_travel_exact(dx as int, dt as int);
            lemma_travel_exact(dy as int, dt as int);
            assert(-DIRECTION_SCALE * 4294967295 <= dx * dt <= DIRECTION_SCALE * 4294967295)
                by (nonlinear_arith)
                requires
                    -DIRECTION_SCALE <= dx <= DIRECTION_SCALE,
                    0 <= dt <= 4294967295,
            ;
            assert(-DIRECTION_SCALE * 4294967295 <= dy * dt <= DIRECTION_SCALE * 4294967295)
                by (nonlinear_arith)
                requires
                    -DIRECTION_SCALE <= dy <= DIRECTION_SCALE,
                    0 <= dt <= 4294967295,
            ;
        }
        let nx = self.position.x + dx * dt;
        let ny = self.position.y + dy * dt;
        if -COORD_LIMIT <= nx && nx <= COORD_LIMIT && -COORD_LIMIT <= ny && ny <= COORD_LIMIT {
            self.position = Vec2 { x: nx, y: ny };
        }
    }
}

/// Integrates every bubble in flight over `dt_ms` milliseconds.
pub fn move_shooted_bubble(bubbles: &mut Vec<ShootedBubble>, dt_ms: u32)
    requires
        forall|i: int| 0 <= i < old(bubbles).len() ==> (#[trigger] old(bubbles)[i]).wf(),
    ensures
        final(bubbles).len() == old(bubbles).len(),
        forall|i: int|
            0 <= i < final(bubbles).len() ==> (#[trigger] final(bubbles)[i]) == old(bubbles)[i].moved(
                dt_ms as int,
            ) && final(bubbles)[i].wf(),
{
    let n = bubbles.len();
    let mut i: usize = 0;
    while i < n
        invariant
            0 <= i <= n,
            n == bubbles.len(),
            n == old(bubbles).len(),
            forall|j: int| 0 <= j < n ==> (#[trigger] old(bubbles)[j]).wf(),
            forall|j: int|
                0 <= j < i ==> (#[trigger] bubbles[j]) == old(bubbles)[j].moved(dt_ms as int)
                    && bubbles[j].wf(),
            forall|j: int| i <= j < n ==> (#[trigger] bubbles[j]) == old(bubbles)[j],
        decreases n - i,
    {
        let mut b = bubbles[i];
        b.advance(dt_ms);
        bubbles.set(i, b);
        i += 1;
    }
}

/// Integrating over `2 * h` milliseconds is integrating twice over `h`, for
/// a flight that stays in the field: the step has no effect besides moving
/// the position along the direction.
pub proof fn lemma_integration_splits(b: ShootedBubble, h: int)
    requires
        b.wf(),
        h >= 0,
        ({
            let (nx, ny) = advanced(b, 2 * h);
            -COORD_LIMIT <= nx <= COORD_LIMIT && -COORD_LIMIT <= ny <= COORD_LIMIT
        }),
    ensures
        b.moved(h).moved(h) == b.moved(2 * h),
{
    let dx = b.direction.0.x as int;
    let dy = b.direction.0.y as int;
    lemma_travel_exact(dx, h);
    lemma_travel_exact(dy, h);
    lemma_travel_exact(dx, 2 * h);
    lemma_travel_exact(dy, 2 * h);
    assert(dx * (2 * h) == 2 * (dx * h)) by (nonlinear_arith);
    assert(dy * (2 * h) == 2 * (dy * h)) by (nonlinear_arith);
    let m = b.moved(h);
    assert(m.direction == b.direction);
}

} // verus!
