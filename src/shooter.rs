use vstd::prelude::*;

verus! {

pub const SHOOTER_SPRITE_SIZE: u32 = 64;

pub const SHOOTER_SPRITE_N_ROWS: usize = 4;

pub const SHOOTER_SPRITE_N_COLUMNS: usize = 16;

/// The largest sprite index of the launcher: one frame per aim step.
pub const SHOOTER_MAX_INDICES: usize = SHOOTER_SPRITE_N_ROWS * SHOOTER_SPRITE_N_COLUMNS - 1;

/// One aim step, in tenths of a degree (1.4 degrees).
pub const TENTHS_PER_POS: i32 = 14;

/// The aim angle, in tenths of a degree; zero points straight up.
#[derive(Clone, Copy, Debug, PartialEq, Eq, Structural)]
pub struct ShooterAngle(pub i32);

/// The launcher's sprite frame: how many aim steps it is turned away from
/// the centre.
#[derive(Clone, Copy, Debug, PartialEq, Eq, Structural)]
pub struct ShooterSpriteIndex(pub usize);

/// The two rotation controls, as held during this tick.
#[derive(Clone, Copy, Debug, PartialEq, Eq, Structural)]
pub struct RotateInput {
    pub left: bool,
    pub right: bool,
}

/// The aim angle of a launcher `index` steps from the centre: negative while
/// the sprite is flipped, positive otherwise.
pub open spec fn aim_angle(index: int, flip_x: bool) -> int {
    if flip_x {
        -TENTHS_PER_POS * index
    } else {
        TENTHS_PER_POS * index
    }
}

/// The orientation after one tick with the controls `input` held, from
/// sprite index `index` and flip flag `flip_x`.
///
/// At the centre either control turns the launcher one step out and toggles
/// the flip. Flipped, `left` steps out (up to the last frame) before `right`
/// steps back; unflipped, the roles are swapped.
pub open spec fn rotate_step(index: int, flip_x: bool, input: RotateInput) -> (int, bool) {
    if index == 0 && (input.left || input.right) {
        (1, !flip_x)
    } else {
        let (out, back) = if flip_x {
            (input.left, input.right)
        } else {
            (input.right, input.left)
        };
        if out && index + 1 <= SHOOTER_MAX_INDICES {
            (index + 1, flip_x)
        } else if back {
            (index - 1, flip_x)
        } else {
            (index, flip_x)
        }
    }
}

/// The orientation after the ticks of `inputs`, in order.
pub open spec fn rotate_steps(index: int, flip_x: bool, inputs: Seq<RotateInput>) -> (int, bool)
    decreases inputs.len(),
{
    if inputs.len() == 0 {
        (index, flip_x)
    } else {
        let (i, f) = rotate_steps(index, flip_x, inputs.drop_last());
        rotate_step(i, f, inputs.last())
    }
}

/// The launcher: its sprite frame, whether the sprite is flipped, and the aim
/// angle that follows from the two.
#[derive(Clone, Copy, Debug, PartialEq, Eq, Structural)]
pub struct Shooter {
    pub id: u64,
    pub sprite_index: ShooterSpriteIndex,
    pub flip_x: bool,
    pub angle: ShooterAngle,
}

impl Shooter {
    pub open spec fn wf(self) -> bool {
        &&& self.sprite_index.0 <= SHOOTER_MAX_INDICES
        &&& self.angle.0 == aim_angle(self.sprite_index.0 as int, self.flip_x)
    }

    /// A launcher at the centre, flipped, aiming straight up.
    pub open spec fn initial(id: u64) -> Shooter {
        Shooter { id, sprite_index: ShooterSpriteIndex(0), flip_x: true, angle: ShooterAngle(0) }
    }

    pub fn new(id: u64) -> (r: Shooter)
        ensures
            r.wf(),
            r == Shooter::initial(id),
    {
        Shooter { id, sprite_index: ShooterSpriteIndex(0), flip_x: true, angle: ShooterAngle(0) }
    }

    /// The aim angle for a sprite index and flip flag.
    pub fn angle_for(index: usize, flip_x: bool) -> (r: ShooterAngle)
        requires
            index <= SHOOTER_MAX_INDICES,
        ensures
            r.0 == aim_angle(index as int, flip_x),
    {
        let step = index as i32 * TENTHS_PER_POS;
        if flip_x {
            ShooterAngle(-step)
        } else {
            ShooterAngle(step)
        }
    }
}

/// One tick of the orientation state machine.
pub fn rotate_shooter(shooter: &mut Shooter, input: RotateInput)
    requires
        old(shooter).wf(),
    ensures
        final(shooter).wf(),
        final(shooter).id == old(shooter).id,
        (final(shooter).sprite_index.0 as int, final(shooter).flip_x) == rotate_step(
            old(shooter).sprite_index.0 as int,
            old(shooter).flip_x,
            input,
        ),
{
    let index = shooter.sprite_index.0;
    let (out, back) = if shooter.flip_x {
        (input.left, input.right)
    } else {
        (input.right, input.left)
    };
    if index == 0 && (input.left || input.right) {
        shooter.flip_x = !shooter.flip_x;
        shooter.sprite_index = ShooterSpriteIndex(1);
    } else if out && index + 1 <= SHOOTER_MAX_INDICES {
        shooter.sprite_index = ShooterSpriteIndex(index + 1);
    } else if back {
        shooter.sprite_index = ShooterSpriteIndex(index - 1);
    }
    shooter.angle = Shooter::angle_for(shooter.sprite_index.0, shooter.flip_x);
}

/// The sprite index stays within `[0, SHOOTER_MAX_INDICES]` however many
/// ticks the controls are held, in whatever combination.
pub proof fn lemma_rotation_stays_in_range(index: int, flip_x: bool, inputs: Seq<RotateInput>)
    requires
        0 <= index <= SHOOTER_MAX_INDICES,
    ensures
        0 <= rotate_steps(index, flip_x, inputs).0 <= SHOOTER_MAX_INDICES,
    decreases inputs.len(),
{
    if inputs.len() > 0 {
        lemma_rotation_stays_in_range(index, flip_x, inputs.drop_last());
    }
}

/// The aim angle of a well-formed launcher is `TENTHS_PER_POS` times its
/// sprite index, negated while flipped: two launchers with the same frame and
/// flip aim alike.
pub proof fn lemma_angle_follows_orientation(a: Shooter, b: Shooter)
    requires
        a.wf(),
        b.wf(),
        a.sprite_index == b.sprite_index,
        a.flip_x == b.flip_x,
    ensures
        a.angle == b.angle,
        a.flip_x ==> a.angle.0 == -TENTHS_PER_POS * a.sprite_index.0,
        !a.flip_x ==> a.angle.0 == TENTHS_PER_POS * a.sprite_index.0,
{
}

} // verus!
