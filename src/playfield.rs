use vstd::prelude::*;
use vstd::arithmetic::div_mod::lemma_div_multiples_vanish;
use crate::geometry::Vec2;
use crate::shooter::Shooter;
use crate::flight::{
    Bubble, BubbleColor, Direction, ShootedBubble, ShooterBubble, DIRECTION_SCALE, SHOOTER_ORBIT,
};
use crate::walls::{build_wall, field_wall, Wall};

verus! {

/// Signal that the launcher `shooter` has just fired its bubble.
#[derive(Clone, Copy, Debug, PartialEq, Eq, Structural)]
pub struct ShootedBallEvent {
    pub shooter: u64,
}

/// Where the carried bubble sits, relative to the launcher's centre, for a
/// unit aim direction: `SHOOTER_ORBIT` along it.
pub open spec fn orbit_offset(aim: Direction) -> Vec2 {
    Vec2 {
        x: (aim.0.x * SHOOTER_ORBIT as int / DIRECTION_SCALE as int) as i64,
        y: (aim.0.y * SHOOTER_ORBIT as int / DIRECTION_SCALE as int) as i64,
    }
}

/// The carried bubble's offset from the launcher for the aim direction `aim`.
pub fn carried_bubble_offset(aim: Direction) -> (r: Vec2)
    requires
        aim.wf(),
    ensures
        r == orbit_offset(aim),
        r.in_field(),
{
    let per_unit = SHOOTER_ORBIT / DIRECTION_SCALE;
    proof {
        let (x, y) = (aim.0.x as int, aim.0.y as int);
        assert(x * SHOOTER_ORBIT == DIRECTION_SCALE * (x * 130)) by (nonlinear_arith);
        assert(y * SHOOTER_ORBIT == DIRECTION_SCALE * (y * 130)) by (nonlinear_arith);
        lemma_div_multiples_vanish(x * 130, DIRECTION_SCALE as int);
        lemma_div_multiples_vanish(y * 130, DIRECTION_SCALE as int);
    }
    Vec2 { x: aim.0.x * per_unit, y: aim.0.y * per_unit }
}

/// The bubble in flight that `carried` becomes when fired along `aim`: it
/// leaves from where it sat on the launcher.
pub open spec fn launched(carried: ShooterBubble, aim: Direction) -> ShootedBubble {
    ShootedBubble { bubble: carried.bubble, position: orbit_offset(aim), direction: aim }
}

/// The bubble that the launcher is loaded with.
pub fn build_shooter_bubble() -> (r: ShooterBubble)
    ensures
        r == (ShooterBubble { bubble: Bubble(BubbleColor::Red) }),
{
    ShooterBubble { bubble: Bubble(BubbleColor::Red) }
}

/// Top-left corner of a colour's bubble frame on the sprite sheet.
pub open spec fn ball_sprite_start(color: BubbleColor) -> (u32, u32) {
    match color {
        BubbleColor::Blue => (1, 1854),
        BubbleColor::Red => (1, 1887),
        BubbleColor::Purple => (1, 1920),
        BubbleColor::Grey => (1, 1953),
        BubbleColor::Yellow => (555, 1854),
        BubbleColor::Green => (555, 1887),
        BubbleColor::Silver => (555, 1953),
    }
}

/// Side of a bubble's frame on the sprite sheet, in pixels.
pub const BALL_SPRITE_SIZE: u32 = 16;

/// The frame of the sprite sheet that shows a bubble of `color`, as
/// `(min_x, min_y, max_x, max_y)` in pixels.
pub fn ball_sprite_rect(color: BubbleColor) -> (r: (u32, u32, u32, u32))
    ensures
        r == ({
            let (x, y) = ball_sprite_start(color);
            (x, y, (x + BALL_SPRITE_SIZE) as u32, (y + BALL_SPRITE_SIZE) as u32)
        }),
{
    let (x, y): (u32, u32) = match color {
        BubbleColor::Blue => (1, 1854),
        BubbleColor::Red => (1, 1887),
        BubbleColor::Purple => (1, 1920),
        BubbleColor::Grey => (1, 1953),
        BubbleColor::Yellow => (555, 1854),
        BubbleColor::Green => (555, 1887),
        BubbleColor::Silver => (555, 1953),
    };
    (x, y, x + BALL_SPRITE_SIZE, y + BALL_SPRITE_SIZE)
}

/// The whole simulated state: the launcher, the bubble it carries, the
/// bubbles in flight and the walls.
pub struct Playfield {
    pub shooter: Option<Shooter>,
    pub shooter_bubble: Option<ShooterBubble>,
    pub shooted: Vec<ShootedBubble>,
    pub walls: Vec<Wall>,
}

impl Playfield {
    pub open spec fn wf(self) -> bool {
        &&& (self.shooter matches Some(s) ==> s.wf())
        &&& forall|i: int| 0 <= i < self.shooted.len() ==> (#[trigger] self.shooted[i]).wf()
        &&& forall|i: int| 0 <= i < self.walls.len() ==> (#[trigger] self.walls[i]).wf()
    }

    /// A fire press launches a bubble: there is a launcher and it carries one.
    pub open spec fn launches(self, fire: bool) -> bool {
        fire && self.shooter is Some && self.shooter_bubble is Some
    }

    /// The two states hold the same launcher, carried bubble, bubbles in
    /// flight and walls.
    pub open spec fn same_as(self, other: Playfield) -> bool {
        &&& self.shooter == other.shooter
        &&& self.shooter_bubble == other.shooter_bubble
        &&& self.shooted@ == other.shooted@
        &&& self.walls@ == other.walls@
    }
}

/// What one tick of firing does: with `fire` pressed, a launcher and a
/// carried bubble, the bubble leaves along `aim` and an event names the
/// launcher; otherwise nothing changes and no event comes.
pub open spec fn shot(
    before: Playfield,
    after: Playfield,
    fire: bool,
    aim: Direction,
    event: Option<ShootedBallEvent>,
) -> bool {
    if before.launches(fire) {
        &&& event == Some(ShootedBallEvent { shooter: before.shooter->0.id })
        &&& after.shooter == before.shooter
        &&& after.shooter_bubble is None
        &&& after.shooted@ == before.shooted@.push(launched(before.shooter_bubble->0, aim))
        &&& after.walls@ == before.walls@
    } else {
        event is None && after.same_as(before)
    }
}

/// The state at start: a centred launcher with id `shooter_id` carrying a
/// bubble, nothing in flight, and the two walls of the field.
pub fn setup(shooter_id: u64) -> (r: Playfield)
    ensures
        r.wf(),
        r.shooter == Some(Shooter::initial(shooter_id)),
        r.shooter_bubble == Some(ShooterBubble { bubble: Bubble(BubbleColor::Red) }),
        r.shooted@.len() == 0,
        r.walls@ == seq![field_wall(-150, DIRECTION_SCALE as int), field_wall(150, -DIRECTION_SCALE)],
{
    Playfield {
        shooter: Some(Shooter::new(shooter_id)),
        shooter_bubble: Some(build_shooter_bubble()),
        shooted: Vec::new(),
        walls: build_wall(),
    }
}

/// Fires the carried bubble along `aim`, the unit direction of the
/// launcher's current angle, when `fire_just_pressed`; a press with no
/// launcher or no carried bubble does nothing.
pub fn shoot_ball(field: &mut Playfield, fire_just_pressed: bool, aim: Direction) -> (r: Option<
    ShootedBallEvent,
>)
    requires
        old(field).wf(),
        aim.wf(),
    ensures
        final(field).wf(),
        shot(*old(field), *final(field), fire_just_pressed, aim, r),
{
    if !fire_just_pressed {
        return None;
    }
    match (field.shooter, field.shooter_bubble) {
        (Some(shooter), Some(carried)) => {
            let position = carried_bubble_offset(aim);
            field.shooter_bubble = None;
            field.shooted.push(ShootedBubble { bubble: carried.bubble, position, direction: aim });
            Some(ShootedBallEvent { shooter: shooter.id })
        },
        _ => None,
    }
}

/// Whether one of `events` names the launcher of `field`.
pub open spec fn reloads(field: Playfield, events: Seq<ShootedBallEvent>) -> bool {
    &&& field.shooter is Some
    &&& exists|i: int| 0 <= i < events.len() && (#[trigger] events[i]).shooter == field.shooter->0.id
}

/// Gives the launcher a new bubble once one of `events` says that it fired.
pub fn set_shooter_ball(field: &mut Playfield, events: &Vec<ShootedBallEvent>)
    requires
        old(field).wf(),
    ensures
        final(field).wf(),
        final(field).shooter == old(field).shooter,
        final(field).shooted@ == old(field).shooted@,
        final(field).walls@ == old(field).walls@,
        final(field).shooter_bubble == if reloads(*old(field), events@) {
            Some(ShooterBubble { bubble: Bubble(BubbleColor::Red) })
        } else {
            old(field).shooter_bubble
        },
{
    let id = match field.shooter {
        Some(s) => s.id,
        None => {
            return;
        },
    };
    let mut found = false;
    let mut i: usize = 0;
    while i < events.len() && !found
        invariant
            0 <= i <= events.len(),
            found ==> exists|j: int| 0 <= j < events.len() && (#[trigger] events[j]).shooter == id,
            !found ==> forall|j: int| 0 <= j < i ==> (#[trigger] events[j]).shooter != id,
        decreases events.len() - i,
    {
        found = events[i].shooter == id;
        i += 1;
    }
    if found {
        field.shooter_bubble = Some(build_shooter_bubble());
    }
}

/// A second press with no reload in between fires nothing: once a bubble
/// has left, the launcher carries none until it is reloaded.
pub proof fn lemma_second_shot_is_noop(
    p0: Playfield,
    p1: Playfield,
    p2: Playfield,
    fire1: bool,
    fire2: bool,
    aim1: Direction,
    aim2: Direction,
    e1: Option<ShootedBallEvent>,
    e2: Option<ShootedBallEvent>,
)
    requires
        shot(p0, p1, fire1, aim1, e1),
        shot(p1, p2, fire2, aim2, e2),
        e1 is Some,
    ensures
        e2 is None,
        p2.same_as(p1),
{
}

} // verus!
