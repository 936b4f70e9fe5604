//! Aiming, launching and wall-bounce logic of a bubble shooter, on exact
//! integer geometry.
//!
//! Lengths are fixed-point: one world unit is `UNITS_PER_WORLD_UNIT` library
//! units. Angles are counted in tenths of a degree. A direction is a vector
//! whose length stands for one when it is `DIRECTION_SCALE`. Time is counted
//! in milliseconds.
pub mod geometry;
pub mod shooter;
pub mod flight;
pub mod walls;
pub mod playfield;

pub use geometry::{vector_projection, Circle, Projection, Rect, Segment, Vec2, COORD_LIMIT};
pub use shooter::{
    rotate_shooter, RotateInput, Shooter, ShooterAngle, ShooterSpriteIndex, SHOOTER_MAX_INDICES,
    SHOOTER_SPRITE_N_COLUMNS, SHOOTER_SPRITE_N_ROWS, SHOOTER_SPRITE_SIZE, TENTHS_PER_POS,
};
pub use flight::{
    move_shooted_bubble, Bubble, BubbleColor, Direction, ShootedBubble, ShooterBubble,
    BUBBLE_RADIUS, BUBBLE_SPEED, DIRECTION_SCALE, MILLIS_PER_SECOND, SHOOTER_ORBIT,
    UNITS_PER_WORLD_UNIT,
};
pub use walls::{bubble_collide_wall, build_wall, Normal, Wall};
pub use playfield::{
    ball_sprite_rect, build_shooter_bubble, carried_bubble_offset, set_shooter_ball, setup,
    shoot_ball, Playfield, ShootedBallEvent, BALL_SPRITE_SIZE,
};
