//! Locomotion: move intents walk the body on foot and steer it on skis.

use vstd::prelude::*;
use crate::body::PhysicsBody;
use crate::player::{Direction, LocomotionMode, PlayerState};
use crate::units::WALK_SPEED;

verus! {

/// Net horizontal displacement of the move intents on foot: one walking step
/// to the right for `right`, one to the left for `left`, nothing for both.
pub open spec fn walk_delta(left: bool, right: bool) -> int {
    (if right { WALK_SPEED as int } else { 0 }) - (if left { WALK_SPEED as int } else { 0 })
}

/// Horizontal position after the move intents: displaced on foot, untouched on skis.
pub open spec fn walked_x(player: PlayerState, x: int, left: bool, right: bool) -> int {
    if player.is_skiing {
        x
    } else {
        x + walk_delta(left, right)
    }
}

/// Direction after the move intents: on skis and grounded the pressed side
/// (right wins over left), in every other state the direction as it was.
pub open spec fn steered(player: PlayerState, left: bool, right: bool) -> Direction {
    if player.is_skiing && !player.is_jumping {
        if right {
            Direction::Right
        } else if left {
            Direction::Left
        } else {
            player.direction
        }
    } else {
        player.direction
    }
}

/// Whether the position after the move intents is within the range of its
/// representation.
pub open spec fn walk_fits(player: PlayerState, x: int, left: bool, right: bool) -> bool {
    i64::MIN <= walked_x(player, x, left, right) <= i64::MAX
}

/// Whether `move_player` can be run on these values: decides `walk_fits`.
pub fn can_walk(left: bool, right: bool, player: &PlayerState, body: &PhysicsBody) -> (r: bool)
    ensures
        r == walk_fits(*player, body.position.x as int, left, right),
{
    if player.is_skiing || left == right {
        true
    } else if left {
        body.position.x >= i64::MIN + WALK_SPEED
    } else {
        body.position.x <= i64::MAX - WALK_SPEED
    }
}

/// The direction after the move intents of one step.
pub fn steer(left: bool, right: bool, player: &PlayerState) -> (r: Direction)
    ensures
        r == steered(*player, left, right),
{
    if player.is_skiing && !player.is_jumping {
        if right {
            Direction::Right
        } else if left {
            Direction::Left
        } else {
            player.direction
        }
    } else {
        player.direction
    }
}

/// Applies the move intents of one step. On foot the body's horizontal
/// position is displaced directly; on skis and grounded the player is
/// steered; on skis and airborne nothing happens. Velocities are never touched.
pub fn move_player(left: bool, right: bool, player: &mut PlayerState, body: &mut PhysicsBody)
    requires
        walk_fits(*old(player), old(body).position.x as int, left, right),
    ensures
        *final(player) == (PlayerState {
            direction: steered(*old(player), left, right),
            ..*old(player)
        }),
        final(body).position.x == walked_x(*old(player), old(body).position.x as int, left, right),
        final(body).position.y == old(body).position.y,
        final(body).linear_velocity == old(body).linear_velocity,
        final(body).angular_velocity == old(body).angular_velocity,
        !(old(player).is_skiing && !old(player).is_jumping)
            ==> final(player).direction == old(player).direction,
{
    match player.locomotion_mode() {
        LocomotionMode::Kinematic => {
            if left && !right {
                body.position.x = body.position.x - WALK_SPEED;
            } else if right && !left {
                body.position.x = body.position.x + WALK_SPEED;
            }
        },
        LocomotionMode::Dynamic => {
            player.direction = steer(left, right, player);
        },
    }
}

/// The direction changes only while skiing and grounded: in every other
/// state it is the same after the move intents, whatever they are.
pub proof fn lemma_direction_restricted(player: PlayerState, left: bool, right: bool)
    requires
        !(player.is_skiing && !player.is_jumping),
    ensures
        steered(player, left, right) == player.direction,
{
}

/// While skiing and grounded a pressed move intent decides the direction.
pub proof fn lemma_steering_follows_intent(player: PlayerState, left: bool, right: bool)
    requires
        player.is_skiing,
        !player.is_jumping,
    ensures
        right ==> steered(player, left, right) == Direction::Right,
        left && !right ==> steered(player, left, right) == Direction::Left,
        !left && !right ==> steered(player, left, right) == player.direction,
{
}

/// Walking left and right at once cancels out, and skiing never displaces.
pub proof fn lemma_walk_cancels(player: PlayerState, x: int)
    ensures
        walked_x(player, x, true, true) == x,
        walked_x(player, x, false, false) == x,
        player.is_skiing ==> forall|l: bool, r: bool| #[trigger] walked_x(player, x, l, r) == x,
{
}

} // verus!
