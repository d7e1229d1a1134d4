//! Jump and ski push: velocity writes that only a grounded player may make.

use vstd::prelude::*;
use crate::body::PhysicsBody;
use crate::player::{Direction, PlayerState};
use crate::units::{JUMP_IMPULSE, THRUST, UNITS_PER_WHOLE};

verus! {

/// Vertical velocity that a jump sets: the jump impulse scaled by the jump power.
pub open spec fn jump_velocity(jump_power: u32) -> int {
    JUMP_IMPULSE * jump_power / (UNITS_PER_WHOLE as int)
}

/// Horizontal velocity after the jump and ski-push intents. Airborne it is
/// kept. Grounded, a jump on foot resets it to zero and a jump on skis keeps
/// it; a ski push on skis then adds the thrust towards the facing direction.
pub open spec fn thrust_x(player: PlayerState, jump: bool, ski_push: bool, x: int) -> int {
    if player.is_jumping {
        x
    } else {
        let after_jump = if jump && !player.is_skiing { 0 } else { x };
        if ski_push && player.is_skiing {
            after_jump + THRUST * player.direction.sign()
        } else {
            after_jump
        }
    }
}

/// Vertical velocity after the jump intent: set to the jump velocity by a
/// grounded jump, kept otherwise.
pub open spec fn thrust_y(player: PlayerState, jump: bool, y: int) -> int {
    if !player.is_jumping && jump {
        jump_velocity(player.jump_power)
    } else {
        y
    }
}

/// Whether the horizontal velocity after the intents is within the range of
/// its representation.
pub open spec fn thrust_fits(player: PlayerState, jump: bool, ski_push: bool, x: int) -> bool {
    i64::MIN <= thrust_x(player, jump, ski_push, x) <= i64::MAX
}

/// Whether `player_jump_ski` can be run on these values: decides `thrust_fits`.
pub fn can_thrust(jump: bool, ski_push: bool, player: &PlayerState, body: &PhysicsBody) -> (r: bool)
    ensures
        r == thrust_fits(*player, jump, ski_push, body.linear_velocity.x as int),
{
    if player.is_jumping || !ski_push || !player.is_skiing {
        true
    } else {
        match player.direction {
            Direction::Right => body.linear_velocity.x <= i64::MAX - THRUST,
            Direction::Left => body.linear_velocity.x >= i64::MIN + THRUST,
        }
    }
}

/// Applies the jump and ski-push intents of one step to the body's linear
/// velocity. The jump is a velocity set, not an addition; the ski push has no
/// cap other than the range of the representation.
pub fn player_jump_ski(jump: bool, ski_push: bool, player: &PlayerState, body: &mut PhysicsBody)
    requires
        thrust_fits(*player, jump, ski_push, old(body).linear_velocity.x as int),
    ensures
        final(body).linear_velocity.x == thrust_x(
            *player,
            jump,
            ski_push,
            old(body).linear_velocity.x as int,
        ),
        final(body).linear_velocity.y == thrust_y(*player, jump, old(body).linear_velocity.y as int),
        final(body).position == old(body).position,
        final(body).angular_velocity == old(body).angular_velocity,
        player.is_jumping ==> *final(body) == *old(body),
{
    if !player.is_jumping {
        if jump {
            let power: i64 = player.jump_power as i64;
            if !player.is_skiing {
                body.linear_velocity.x = 0;
            }
            body.linear_velocity.y = JUMP_IMPULSE * power / UNITS_PER_WHOLE;
        }
        if ski_push && player.is_skiing {
            body.linear_velocity.x = body.linear_velocity.x + THRUST * player.direction.signum();
        }
    }
}

/// An airborne player's velocity is out of reach of the jump and ski-push
/// intents, whatever they are.
pub proof fn lemma_airborne_gates_thrust(
    player: PlayerState,
    jump: bool,
    ski_push: bool,
    x: int,
    y: int,
)
    requires
        player.is_jumping,
    ensures
        thrust_x(player, jump, ski_push, x) == x,
        thrust_y(player, jump, y) == y,
{
}

/// Pressing jump again while still grounded sets the same vertical velocity
/// again: the jump does not accumulate.
pub proof fn lemma_jump_is_a_set(player: PlayerState, y1: int, y2: int)
    requires
        !player.is_jumping,
    ensures
        thrust_y(player, true, y1) == thrust_y(player, true, y2),
        thrust_y(player, true, thrust_y(player, true, y1)) == thrust_y(player, true, y1),
{
}

/// A lone ski push on skis changes the horizontal velocity by exactly the
/// thrust, towards the facing direction, and leaves the vertical one alone.
pub proof fn lemma_push_adds_thrust(player: PlayerState, x: int, y: int)
    requires
        !player.is_jumping,
        player.is_skiing,
    ensures
        thrust_x(player, false, true, x) == x + THRUST * player.direction.sign(),
        thrust_x(player, true, true, x) == x + THRUST * player.direction.sign(),
        thrust_y(player, false, y) == y,
{
}

} // verus!
