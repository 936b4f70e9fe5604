use bust_a_move::{
    ball_sprite_rect, bubble_collide_wall, build_wall, carried_bubble_offset,
    move_shooted_bubble, rotate_shooter, set_shooter_ball, setup, shoot_ball, vector_projection,
    Bubble, BubbleColor, Circle, Direction, Rect, RotateInput, Segment, ShootedBallEvent,
    ShootedBubble, Shooter, ShooterAngle, Vec2, Wall, BUBBLE_RADIUS, COORD_LIMIT,
    SHOOTER_MAX_INDICES, UNITS_PER_WORLD_UNIT,
};

const LEFT: RotateInput = RotateInput { left: true, right: false };
const RIGHT: RotateInput = RotateInput { left: false, right: true };
const BOTH: RotateInput = RotateInput { left: true, right: true };
const NONE: RotateInput = RotateInput { left: false, right: false };

fn flying(x: i64, y: i64, dx: i64, dy: i64) -> ShootedBubble {
    ShootedBubble {
        bubble: Bubble(BubbleColor::Red),
        position: Vec2::new(x, y),
        direction: Direction(Vec2::new(dx, dy)),
    }
}

#[test]
fn initial_shooter_is_centred_and_flipped() {
    let s = Shooter::new(7);
    assert_eq!(s.id, 7);
    assert_eq!(s.sprite_index.0, 0);
    assert!(s.flip_x);
    assert_eq!(s.angle, ShooterAngle(0));
}

#[test]
fn leaving_centre_toggles_flip_and_takes_one_step() {
    let mut s = Shooter::new(0);
    rotate_shooter(&mut s, LEFT);
    assert_eq!(s.sprite_index.0, 1);
    assert!(!s.flip_x);
    assert_eq!(s.angle.0, 14);

    let mut s = Shooter::new(0);
    rotate_shooter(&mut s, RIGHT);
    assert_eq!(s.sprite_index.0, 1);
    assert!(!s.flip_x);
    assert_eq!(s.angle.0, 14);
}

#[test]
fn unflipped_right_steps_out_and_left_steps_back() {
    let mut s = Shooter::new(0);
    rotate_shooter(&mut s, RIGHT);
    rotate_shooter(&mut s, RIGHT);
    rotate_shooter(&mut s, RIGHT);
    assert_eq!(s.sprite_index.0, 3);
    assert_eq!(s.angle.0, 42);
    rotate_shooter(&mut s, LEFT);
    assert_eq!(s.sprite_index.0, 2);
    assert_eq!(s.angle.0, 28);
    rotate_shooter(&mut s, LEFT);
    rotate_shooter(&mut s, LEFT);
    assert_eq!(s.sprite_index.0, 0);
    assert!(!s.flip_x);
    assert_eq!(s.angle.0, 0);
}

#[test]
fn flipped_left_steps_out_with_negative_angle() {
    let mut s = Shooter::new(0);
    rotate_shooter(&mut s, LEFT);
    rotate_shooter(&mut s, LEFT);
    assert_eq!(s.sprite_index.0, 0);
    assert!(!s.flip_x);
    rotate_shooter(&mut s, LEFT);
    assert!(s.flip_x);
    assert_eq!(s.sprite_index.0, 1);
    assert_eq!(s.angle.0, -14);
    rotate_shooter(&mut s, LEFT);
    assert_eq!(s.sprite_index.0, 2);
    assert_eq!(s.angle.0, -28);
    rotate_shooter(&mut s, RIGHT);
    assert_eq!(s.sprite_index.0, 1);
    assert_eq!(s.angle.0, -14);
}

#[test]
fn no_input_holds_state() {
    let mut s = Shooter::new(0);
    rotate_shooter(&mut s, NONE);
    assert_eq!(s, Shooter::new(0));
    rotate_shooter(&mut s, RIGHT);
    rotate_shooter(&mut s, RIGHT);
    let before = s;
    rotate_shooter(&mut s, NONE);
    assert_eq!(s, before);
}

#[test]
fn both_controls_follow_branch_precedence() {
    let mut s = Shooter::new(0);
    rotate_shooter(&mut s, RIGHT);
    rotate_shooter(&mut s, RIGHT);
    rotate_shooter(&mut s, BOTH);
    assert_eq!(s.sprite_index.0, 3);
    assert!(!s.flip_x);

    let mut s = Shooter::new(0);
    rotate_shooter(&mut s, RIGHT);
    rotate_shooter(&mut s, LEFT);
    rotate_shooter(&mut s, LEFT);
    assert!(s.flip_x);
    rotate_shooter(&mut s, BOTH);
    assert_eq!(s.sprite_index.0, 2);
    assert_eq!(s.angle.0, -28);
}

#[test]
fn holding_a_control_stops_at_last_frame() {
    let mut s = Shooter::new(0);
    for _ in 0..500 {
        rotate_shooter(&mut s, RIGHT);
        assert!(s.sprite_index.0 <= SHOOTER_MAX_INDICES);
    }
    assert_eq!(s.sprite_index.0, 63);
    assert_eq!(s.angle.0, 882);
    rotate_shooter(&mut s, BOTH);
    assert_eq!(s.sprite_index.0, 62);
    for _ in 0..500 {
        rotate_shooter(&mut s, LEFT);
        assert!(s.sprite_index.0 <= SHOOTER_MAX_INDICES);
    }
}

#[test]
fn angle_is_signed_step_times_index() {
    for index in 0..=SHOOTER_MAX_INDICES {
        assert_eq!(Shooter::angle_for(index, false).0, 14 * index as i32);
        assert_eq!(Shooter::angle_for(index, true).0, -14 * index as i32);
    }
}

#[test]
fn setup_loads_shooter_and_walls() {
    let field = setup(3);
    assert_eq!(field.shooter, Some(Shooter::new(3)));
    assert_eq!(field.shooter_bubble.unwrap().bubble, Bubble(BubbleColor::Red));
    assert!(field.shooted.is_empty());
    assert_eq!(field.walls.len(), 2);
}

#[test]
fn firing_straight_up_goes_up() {
    let mut field = setup(1);
    let aim = Direction(Vec2::new(0, 1000));
    let event = shoot_ball(&mut field, true, aim);
    assert_eq!(event, Some(ShootedBallEvent { shooter: 1 }));
    assert_eq!(field.shooted.len(), 1);
    assert_eq!(field.shooted[0].direction, Direction(Vec2::new(0, 1000)));
    assert_eq!(field.shooted[0].position, Vec2::new(0, 26 * UNITS_PER_WORLD_UNIT));
    assert_eq!(field.shooted[0].bubble, Bubble(BubbleColor::Red));
    assert!(field.shooter_bubble.is_none());
}

#[test]
fn second_fire_without_reload_does_nothing() {
    let mut field = setup(1);
    let aim = Direction(Vec2::new(600, 800));
    assert!(shoot_ball(&mut field, true, aim).is_some());
    assert_eq!(shoot_ball(&mut field, true, aim), None);
    assert_eq!(field.shooted.len(), 1);
}

#[test]
fn no_press_fires_nothing() {
    let mut field = setup(1);
    assert_eq!(shoot_ball(&mut field, false, Direction(Vec2::new(0, 1000))), None);
    assert!(field.shooted.is_empty());
    assert!(field.shooter_bubble.is_some());
}

#[test]
fn fire_without_shooter_does_nothing() {
    let mut field = setup(1);
    field.shooter = None;
    assert_eq!(shoot_ball(&mut field, true, Direction(Vec2::new(0, 1000))), None);
    assert!(field.shooted.is_empty());
}

#[test]
fn reload_after_event_allows_firing_again() {
    let mut field = setup(4);
    let aim = Direction(Vec2::new(-600, 800));
    let event = shoot_ball(&mut field, true, aim).unwrap();
    set_shooter_ball(&mut field, &vec![ShootedBallEvent { shooter: 9 }]);
    assert!(field.shooter_bubble.is_none());
    set_shooter_ball(&mut field, &vec![event]);
    assert_eq!(field.shooter_bubble.unwrap().bubble, Bubble(BubbleColor::Red));
    assert!(shoot_ball(&mut field, true, aim).is_some());
    assert_eq!(field.shooted.len(), 2);
    assert_eq!(field.shooted[1].position, Vec2::new(-78000, 104000));
}

#[test]
fn carried_offset_lies_on_orbit() {
    assert_eq!(carried_bubble_offset(Direction(Vec2::new(0, 1000))), Vec2::new(0, 130000));
    assert_eq!(carried_bubble_offset(Direction(Vec2::new(600, -800))), Vec2::new(78000, -104000));
}

#[test]
fn integration_moves_along_direction() {
    let mut bubbles = vec![flying(0, 0, 600, 800)];
    move_shooted_bubble(&mut bubbles, 16);
    // 16 ms at 200 units per second is 3.2 world units.
    assert_eq!(bubbles[0].position, Vec2::new(9600, 12800));
    assert_eq!(bubbles[0].direction, Direction(Vec2::new(600, 800)));
}

#[test]
fn one_tick_equals_two_half_ticks() {
    let mut once = vec![flying(-1000, 2500, -707, 707), flying(40, -3, 0, 1000)];
    let mut twice = once.clone();
    move_shooted_bubble(&mut once, 20);
    move_shooted_bubble(&mut twice, 10);
    move_shooted_bubble(&mut twice, 10);
    assert_eq!(once, twice);
    assert_eq!(once[0].position, Vec2::new(-1000 - 14140, 2500 + 14140));
}

#[test]
fn zero_time_does_not_move() {
    let mut bubbles = vec![flying(5, 6, 1000, 0)];
    move_shooted_bubble(&mut bubbles, 0);
    assert_eq!(bubbles[0].position, Vec2::new(5, 6));
}

#[test]
fn bubble_at_field_edge_stays_put() {
    let mut bubbles = vec![flying(COORD_LIMIT - 10, 0, 1000, 0)];
    move_shooted_bubble(&mut bubbles, 1);
    assert_eq!(bubbles[0].position, Vec2::new(COORD_LIMIT - 10, 0));
}

#[test]
fn reference_wall_bounces_touching_bubble() {
    let walls = build_wall();
    let u = UNITS_PER_WORLD_UNIT;
    assert_eq!(walls[0].center, Vec2::new(-150 * u, 50 * u));
    let (a, _, c, _) = walls[0].corners();
    assert_eq!(a, Vec2::new(-166 * u, 275 * u));
    assert_eq!(c, Vec2::new(-134 * u, -175 * u));
    let mut bubbles = vec![flying(-134 * u, 0, -1000, 0)];
    bubble_collide_wall(&mut bubbles, &walls);
    assert_eq!(bubbles[0].direction, Direction(Vec2::new(1000, 0)));
    assert_eq!(bubbles[0].position, Vec2::new(-134 * u, 0));
}

#[test]
fn bubble_grazing_wall_side_bounces() {
    let walls = build_wall();
    let u = UNITS_PER_WORLD_UNIT;
    let mut bubbles = vec![flying(128 * u, 100 * u, 707, 707)];
    bubble_collide_wall(&mut bubbles, &walls);
    assert_eq!(bubbles[0].direction, Direction(Vec2::new(-707, 707)));
}

#[test]
fn bubble_away_from_walls_keeps_direction() {
    let walls = build_wall();
    let u = UNITS_PER_WORLD_UNIT;
    let mut bubbles = vec![flying(0, 0, -1000, 0), flying(-125 * u - 1, 0, -1000, 0)];
    bubble_collide_wall(&mut bubbles, &walls);
    assert_eq!(bubbles[0].direction, Direction(Vec2::new(-1000, 0)));
    assert_eq!(bubbles[1].direction, Direction(Vec2::new(-1000, 0)));
}

#[test]
fn wall_top_also_flips_horizontal_direction() {
    let walls = build_wall();
    let u = UNITS_PER_WORLD_UNIT;
    let mut bubbles = vec![flying(-150 * u, 280 * u, 600, -800)];
    bubble_collide_wall(&mut bubbles, &walls);
    assert_eq!(bubbles[0].direction, Direction(Vec2::new(-600, -800)));
}

#[test]
fn bubble_touching_two_walls_flips_twice() {
    let wall = |x: i64| Wall {
        center: Vec2::new(x, 0),
        width: 10,
        height: 100,
        normal: bust_a_move::Normal(Vec2::new(1000, 0)),
    };
    let walls = vec![wall(-20), wall(20)];
    let mut bubbles = vec![flying(0, 0, 1000, 0)];
    assert!(BUBBLE_RADIUS > 20);
    bubble_collide_wall(&mut bubbles, &walls);
    assert_eq!(bubbles[0].direction, Direction(Vec2::new(1000, 0)));
}

#[test]
fn circle_meets_segment_within_span() {
    let s = Segment(Vec2::new(0, 0), Vec2::new(10, 0));
    assert!(Circle::new(Vec2::new(5, 3), 3).circle_intersect_segment(&s));
    assert!(!Circle::new(Vec2::new(5, 4), 3).circle_intersect_segment(&s));
    assert!(Circle::new(Vec2::new(0, -2), 2).circle_intersect_segment(&s));
    assert!(Circle::new(Vec2::new(10, 0), 0).circle_intersect_segment(&s));
}

#[test]
fn circle_beyond_segment_end_does_not_meet() {
    let s = Segment(Vec2::new(0, 0), Vec2::new(10, 0));
    assert!(!Circle::new(Vec2::new(12, 1), 5).circle_intersect_segment(&s));
    assert!(!Circle::new(Vec2::new(-1, 0), 5).circle_intersect_segment(&s));
    let reversed = Segment(Vec2::new(10, 0), Vec2::new(0, 0));
    assert!(!Circle::new(Vec2::new(12, 1), 5).circle_intersect_segment(&reversed));
}

#[test]
fn degenerate_segment_is_never_met() {
    let p = Vec2::new(3, 3);
    assert!(!Circle::new(p, 10).circle_intersect_segment(&Segment(p, p)));
}

#[test]
fn projection_is_exact_fraction() {
    let p = vector_projection(Vec2::new(3, 4), Vec2::new(2, 0));
    assert_eq!((p.num, p.den), (6, 4));
    let p = vector_projection(Vec2::new(-1, 5), Vec2::new(-3, 4));
    assert_eq!((p.num, p.den), (23, 25));
}

#[test]
fn rect_orders_corners_and_includes_border() {
    let r = Rect::new(10, 20, -10, -20);
    assert_eq!(r.min, Vec2::new(-10, -20));
    assert_eq!(r.max, Vec2::new(10, 20));
    assert!(r.contains(Vec2::new(10, -20)));
    assert!(r.contains(Vec2::new(0, 0)));
    assert!(!r.contains(Vec2::new(11, 0)));
    assert!(!r.contains(Vec2::new(0, -21)));
}

#[test]
fn ball_frames_on_sprite_sheet() {
    assert_eq!(ball_sprite_rect(BubbleColor::Red), (1, 1887, 17, 1903));
    assert_eq!(ball_sprite_rect(BubbleColor::Silver), (555, 1953, 571, 1969));
    assert_eq!(ball_sprite_rect(BubbleColor::Yellow), (555, 1854, 571, 1870));
}
