use vstd::prelude::*;
use crate::geometry::{Circle, Rect, Segment, Vec2, COORD_LIMIT};
use crate::flight::{ShootedBubble, BUBBLE_RADIUS, DIRECTION_SCALE, UNITS_PER_WORLD_UNIT};

verus! {

/// The side a wall faces, as a direction.
#[derive(Clone, Copy, Debug, PartialEq, Eq, Structural)]
pub struct Normal(pub Vec2);

/// A static axis-aligned wall: its centre, its extent and its facing.
#[derive(Clone, Copy, Debug, PartialEq, Eq, Structural)]
pub struct Wall {
    pub center: Vec2,
    pub width: i64,
    pub height: i64,
    pub normal: Normal,
}

impl Wall {
    /// Left edge: the centre less half the width, halved towards zero.
    pub open spec fn left(self) -> int {
        self.center.x - self.width / 2
    }

    pub open spec fn top(self) -> int {
        self.center.y + self.height / 2
    }

    pub open spec fn right(self) -> int {
        self.left() + self.width
    }

    pub open spec fn bottom(self) -> int {
        self.top() - self.height
    }

    /// The extent is not negative and every corner lies in the field.
    pub open spec fn wf(self) -> bool {
        &&& 0 <= self.width
        &&& 0 <= self.height
        &&& self.center.in_field()
        &&& -COORD_LIMIT <= self.left()
        &&& self.right() <= COORD_LIMIT
        &&& -COORD_LIMIT <= self.bottom()
        &&& self.top() <= COORD_LIMIT
    }

    /// The four corners: top left, top right, bottom right, bottom left.
    pub open spec fn corner_points(self) -> (Vec2, Vec2, Vec2, Vec2) {
        let (l, t, r, b) = (
            self.left() as i64,
            self.top() as i64,
            self.right() as i64,
            self.bottom() as i64,
        );
        (Vec2 { x: l, y: t }, Vec2 { x: r, y: t }, Vec2 { x: r, y: b }, Vec2 { x: l, y: b })
    }

    /// Whether a bubble centred at `p` touches the wall: its centre lies in
    /// the wall's rectangle, or its circle meets one of the four sides.
    pub open spec fn hit_by(self, p: Vec2) -> bool {
        let (a, b, c, d) = self.corner_points();
        let circle = Circle { center: p, radius: BUBBLE_RADIUS };
        ||| Rect { min: d, max: b }.holds(p)
        ||| circle.meets(Segment(a, b))
        ||| circle.meets(Segment(b, c))
        ||| circle.meets(Segment(c, d))
        ||| circle.meets(Segment(a, d))
    }

    pub fn corners(&self) -> (r: (Vec2, Vec2, Vec2, Vec2))
        requires
            self.wf(),
        ensures
            r == self.corner_points(),
            r.0.in_field(),
            r.1.in_field(),
            r.2.in_field(),
            r.3.in_field(),
    {
        let left = self.center.x - self.width / 2;
        let top = self.center.y + self.height / 2;
        let right = left + self.width;
        let bottom = top - self.height;
        (
            Vec2 { x: left, y: top },
            Vec2 { x: right, y: top },
            Vec2 { x: right, y: bottom },
            Vec2 { x: left, y: bottom },
        )
    }

    /// Whether a bubble centred at `p` touches the wall.
    pub fn collides(&self, p: Vec2) -> (r: bool)
        requires
            self.wf(),
            p.in_field(),
        ensures
            r == self.hit_by(p),
    {
        let (a, b, c, d) = self.corners();
        let circle = Circle::new(p, BUBBLE_RADIUS);
        let rect = Rect::new(a.x, a.y, c.x, c.y);
        rect.contains(p) || circle.circle_intersect_segment(&Segment(a, b))
            || circle.circle_intersect_segment(&Segment(b, c))
            || circle.circle_intersect_segment(&Segment(c, d))
            || circle.circle_intersect_segment(&Segment(a, d))
    }
}

/// How many of `walls` a bubble centred at `p` touches.
pub open spec fn hit_count(walls: Seq<Wall>, p: Vec2) -> nat
    decreases walls.len(),
{
    if walls.len() == 0 {
        0
    } else {
        hit_count(walls.drop_last(), p) + if walls.last().hit_by(p) {
            1nat
        } else {
            0nat
        }
    }
}

/// A horizontal direction component after `n` reflections.
pub open spec fn reflected(dx: int, n: nat) -> int {
    if n % 2 == 0 {
        dx
    } else {
        -dx
    }
}

/// The bubble after one collision pass over `walls`: its horizontal
/// direction is negated once for each wall it touches.
pub open spec fn bounced(b: ShootedBubble, walls: Seq<Wall>) -> ShootedBubble {
    ShootedBubble {
        direction: crate::flight::Direction(
            Vec2 {
                x: reflected(b.direction.0.x as int, hit_count(walls, b.position)) as i64,
                ..b.direction.0
            },
        ),
        ..b
    }
}

proof fn lemma_reflected_again(dx: int, n: nat)
    ensures
        reflected(dx, n + 1) == -reflected(dx, n),
{
}

/// Tests every bubble in flight against every wall, and reflects the
/// horizontal direction of a bubble on each wall that it touches.
pub fn bubble_collide_wall(bubbles: &mut Vec<ShootedBubble>, walls: &Vec<Wall>)
    requires
        forall|i: int| 0 <= i < old(bubbles).len() ==> (#[trigger] old(bubbles)[i]).wf(),
        forall|i: int| 0 <= i < walls.len() ==> (#[trigger] walls[i]).wf(),
    ensures
        final(bubbles).len() == old(bubbles).len(),
        forall|i: int|
            0 <= i < final(bubbles).len() ==> (#[trigger] final(bubbles)[i]) == bounced(
                old(bubbles)[i],
                walls@,
            ) && final(bubbles)[i].wf(),
{
    let n = bubbles.len();
    let mut w: usize = 0;
    while w < walls.len()
        invariant
            0 <= w <= walls.len(),
            n == bubbles.len(),
            n == old(bubbles).len(),
            forall|i: int| 0 <= i < walls.len() ==> (#[trigger] walls[i]).wf(),
            forall|j: int| 0 <= j < n ==> (#[trigger] old(bubbles)[j]).wf(),
            forall|j: int|
                0 <= j < n ==> (#[trigger] bubbles[j]) == bounced(
                    old(bubbles)[j],
                    walls@.subrange(0, w as int),
                ) && bubbles[j].wf(),
        decreases walls.len() - w,
    {
        let wall = &walls[w];
        let mut i: usize = 0;
        while i < n
            invariant
                0 <= i <= n,
                w < walls.len(),
                n == bubbles.len(),
                n == old(bubbles).len(),
                *wall == walls[w as int],
                wall.wf(),
                forall|j: int| 0 <= j < n ==> (#[trigger] old(bubbles)[j]).wf(),
                forall|j: int|
                    0 <= j < i ==> (#[trigger] bubbles[j]) == bounced(
                        old(bubbles)[j],
                        walls@.subrange(0, w + 1),
                    ) && bubbles[j].wf(),
                forall|j: int|
                    i <= j < n ==> (#[trigger] bubbles[j]) == bounced(
                        old(bubbles)[j],
                        walls@.subrange(0, w as int),
                    ) && bubbles[j].wf(),
            decreases n - i,
        {
            let mut b = bubbles[i];
            proof {
                let prefix = walls@.subrange(0, w + 1);
                assert(prefix.drop_last() == walls@.subrange(0, w as int));
                assert(prefix.last() == walls[w as int]);
                assert(b.position == old(bubbles)[i as int].position);
                lemma_reflected_again(
                    old(bubbles)[i as int].direction.0.x as int,
                    hit_count(walls@.subrange(0, w as int), b.position),
                );
                assert(hit_count(prefix, b.position) == hit_count(
                    walls@.subrange(0, w as int),
                    b.position,
                ) + if wall.hit_by(b.position) {
                    1nat
                } else {
                    0nat
                });
            }
            if wall.collides(b.position) {
                b.direction = crate::flight::Direction(
                    Vec2 { x: -b.direction.0.x, y: b.direction.0.y },
                );
            }
            bubbles.set(i, b);
            i += 1;
        }
        w += 1;
    }
    proof {
        assert(walls@.subrange(0, walls.len() as int) == walls@);
    }
}

/// A wall of the field, 32 by 450 world units, centred at `(x, 50)` world
/// units and facing `(normal_x, 0)`.
pub open spec fn field_wall(x: int, normal_x: int) -> Wall {
    Wall {
        center: Vec2 { x: (x * UNITS_PER_WORLD_UNIT) as i64, y: (50 * UNITS_PER_WORLD_UNIT) as i64 },
        width: (32 * UNITS_PER_WORLD_UNIT) as i64,
        height: (450 * UNITS_PER_WORLD_UNIT) as i64,
        normal: Normal(Vec2 { x: normal_x as i64, y: 0 }),
    }
}

/// The two walls of the field: at `x = -150` world units facing right, and
/// at `x = 150` facing left.
pub fn build_wall() -> (r: Vec<Wall>)
    ensures
        r@ == seq![field_wall(-150, DIRECTION_SCALE as int), field_wall(150, -DIRECTION_SCALE)],
        forall|i: int| 0 <= i < r.len() ==> (#[trigger] r[i]).wf(),
{
    let width = 32 * UNITS_PER_WORLD_UNIT;
    let height = 450 * UNITS_PER_WORLD_UNIT;
    let mut walls: Vec<Wall> = Vec::new();
    walls.push(
        Wall {
            center: Vec2 { x: -150 * UNITS_PER_WORLD_UNIT, y: 50 * UNITS_PER_WORLD_UNIT },
            width,
            height,
            normal: Normal(Vec2 { x: DIRECTION_SCALE, y: 0 }),
        },
    );
    walls.push(
        Wall {
            center: Vec2 { x: 150 * UNITS_PER_WORLD_UNIT, y: 50 * UNITS_PER_WORLD_UNIT },
            width,
            height,
            normal: Normal(Vec2 { x: -DIRECTION_SCALE, y: 0 }),
        },
    );
    walls
}

} // verus!
