use skier::body::{PhysicsBody, Vector2};
use skier::player::{Direction, PlayerState};
use skier::thrust::{can_thrust, player_jump_ski};
use skier::units::{JUMP_IMPULSE, THRUST};

fn moving(vx: i64, vy: i64) -> PhysicsBody {
    PhysicsBody {
        position: Vector2 { x: 11, y: -22 },
        linear_velocity: Vector2 { x: vx, y: vy },
        angular_velocity: 333,
    }
}

fn skier(is_jumping: bool, direction: Direction) -> PlayerState {
    PlayerState { jump_power: 1_000, is_jumping, is_skiing: true, direction }
}

fn walker(is_jumping: bool) -> PlayerState {
    PlayerState { jump_power: 1_000, is_jumping, is_skiing: false, direction: Direction::Right }
}

#[test]
fn ski_push_adds_thrust_towards_the_right() {
    let p = skier(false, Direction::Right);
    let mut b = moving(1_000, -300);
    player_jump_ski(false, true, &p, &mut b);
    assert_eq!(b.linear_velocity, Vector2 { x: 1_000 + THRUST, y: -300 });
    assert_eq!(b.linear_velocity.x, 21_000);
    assert_eq!(b.position, Vector2 { x: 11, y: -22 });
    assert_eq!(b.angular_velocity, 333);
}

#[test]
fn ski_push_adds_thrust_towards_the_left() {
    let p = skier(false, Direction::Left);
    let mut b = moving(1_000, -300);
    player_jump_ski(false, true, &p, &mut b);
    assert_eq!(b.linear_velocity, Vector2 { x: -19_000, y: -300 });
}

#[test]
fn ski_pushes_accumulate_without_a_cap() {
    let p = skier(false, Direction::Right);
    let mut b = moving(0, 0);
    for _ in 0..1_000 {
        player_jump_ski(false, true, &p, &mut b);
    }
    assert_eq!(b.linear_velocity, Vector2 { x: 20_000_000, y: 0 });
}

#[test]
fn ski_push_on_foot_does_nothing() {
    let p = walker(false);
    let mut b = moving(1_000, -300);
    player_jump_ski(false, true, &p, &mut b);
    assert_eq!(b, moving(1_000, -300));
}

#[test]
fn jump_on_foot_kills_horizontal_velocity() {
    let p = walker(false);
    let mut b = moving(7_000, -5_000);
    player_jump_ski(true, false, &p, &mut b);
    assert_eq!(b.linear_velocity, Vector2 { x: 0, y: JUMP_IMPULSE });
    assert_eq!(b.linear_velocity.y, 200_000);
    assert_eq!(b.position, Vector2 { x: 11, y: -22 });
    assert_eq!(b.angular_velocity, 333);
}

#[test]
fn jump_on_skis_keeps_horizontal_velocity() {
    let p = skier(false, Direction::Left);
    let mut b = moving(7_000, -5_000);
    player_jump_ski(true, false, &p, &mut b);
    assert_eq!(b.linear_velocity, Vector2 { x: 7_000, y: 200_000 });
}

#[test]
fn jump_scales_with_jump_power() {
    for (power, expected) in [(1_u32, 200_i64), (500, 100_000), (1_500, 300_000), (u32::MAX, 858_993_459_000)] {
        let p = PlayerState { jump_power: power, ..walker(false) };
        let mut b = moving(0, 0);
        player_jump_ski(true, false, &p, &mut b);
        assert_eq!(b.linear_velocity, Vector2 { x: 0, y: expected });
    }
}

#[test]
fn repeated_jump_sets_the_same_velocity() {
    let p = walker(false);
    let mut b = moving(7_000, -5_000);
    player_jump_ski(true, false, &p, &mut b);
    let once = b;
    player_jump_ski(true, false, &p, &mut b);
    assert_eq!(b, once);
}

#[test]
fn jump_and_push_fire_in_the_same_step() {
    let p = skier(false, Direction::Right);
    let mut b = moving(7_000, -5_000);
    player_jump_ski(true, true, &p, &mut b);
    assert_eq!(b.linear_velocity, Vector2 { x: 27_000, y: 200_000 });
    let p = walker(false);
    let mut b = moving(7_000, -5_000);
    player_jump_ski(true, true, &p, &mut b);
    assert_eq!(b.linear_velocity, Vector2 { x: 0, y: 200_000 });
}

#[test]
fn airborne_ignores_jump_and_push() {
    for p in [walker(true), skier(true, Direction::Left), skier(true, Direction::Right)] {
        for (jump, push) in [(true, false), (false, true), (true, true), (false, false)] {
            let mut b = moving(7_000, -5_000);
            player_jump_ski(jump, push, &p, &mut b);
            assert_eq!(b, moving(7_000, -5_000));
        }
    }
}

#[test]
fn no_intent_leaves_velocity() {
    let mut b = moving(7_000, -5_000);
    player_jump_ski(false, false, &skier(false, Direction::Right), &mut b);
    assert_eq!(b, moving(7_000, -5_000));
}

#[test]
fn push_reaches_the_end_of_the_range() {
    let mut b = moving(i64::MAX - 20_000, 0);
    player_jump_ski(false, true, &skier(false, Direction::Right), &mut b);
    assert_eq!(b.linear_velocity.x, i64::MAX);
    let mut b = moving(i64::MIN + 20_000, 0);
    player_jump_ski(false, true, &skier(false, Direction::Left), &mut b);
    assert_eq!(b.linear_velocity.x, i64::MIN);
}

#[test]
fn push_is_refused_past_the_ends_of_the_range() {
    let right = skier(false, Direction::Right);
    let left = skier(false, Direction::Left);
    assert!(can_thrust(false, true, &right, &moving(i64::MAX - 20_000, 0)));
    assert!(!can_thrust(false, true, &right, &moving(i64::MAX - 19_999, 0)));
    assert!(!can_thrust(true, true, &right, &moving(i64::MAX, 0)));
    assert!(can_thrust(false, true, &left, &moving(i64::MAX, 0)));
    assert!(can_thrust(false, true, &left, &moving(i64::MIN + 20_000, 0)));
    assert!(!can_thrust(false, true, &left, &moving(i64::MIN + 19_999, 0)));
    assert!(can_thrust(true, false, &right, &moving(i64::MAX, i64::MAX)));
    assert!(can_thrust(true, true, &walker(false), &moving(i64::MAX, 0)));
    assert!(can_thrust(true, true, &skier(true, Direction::Right), &moving(i64::MAX, 0)));
}
