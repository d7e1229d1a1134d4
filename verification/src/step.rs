//! One fixed simulation step: the controllers in their data-dependency order.

use vstd::prelude::*;
use crate::balance::{balance_step, rotate_player};
use crate::body::PhysicsBody;
use crate::camera::{
    camera_follow_player, can_zoom, player_camera_control, zoom_fits, zoomed, Camera,
};
use crate::contact::{airborne_after, jump_reset, lemma_foreign_events_ignored, CollisionEvent};
use crate::locomotion::{can_walk, move_player, steer, steered, walk_fits, walked_x};
use crate::player::PlayerState;
use crate::thrust::{
    can_thrust, jump_velocity, player_jump_ski, thrust_fits, thrust_x, thrust_y,
};
use crate::units::THRUST;

verus! {

/// The intents of one step, one flag per logical key.
#[derive(Clone, Copy, Debug, PartialEq, Eq, Structural)]
pub struct Intents {
    pub move_left: bool,
    pub move_right: bool,
    pub jump: bool,
    pub ski_push: bool,
    pub rotate_positive: bool,
    pub rotate_negative: bool,
    pub zoom_in: bool,
    pub zoom_out: bool,
}

impl Intents {
    /// No key pressed.
    pub fn none() -> (r: Intents)
        ensures
            r == (Intents {
                move_left: false,
                move_right: false,
                jump: false,
                ski_push: false,
                rotate_positive: false,
                rotate_negative: false,
                zoom_in: false,
                zoom_out: false,
            }),
    {
        Intents {
            move_left: false,
            move_right: false,
            jump: false,
            ski_push: false,
            rotate_positive: false,
            rotate_negative: false,
            zoom_in: false,
            zoom_out: false,
        }
    }
}

/// The player after locomotion: steered, otherwise as before.
pub open spec fn steered_player(player: PlayerState, intents: Intents) -> PlayerState {
    PlayerState { direction: steered(player, intents.move_left, intents.move_right), ..player }
}

/// Whether every quantity that the step writes stays within the range of
/// its representation.
pub open spec fn step_fits(
    intents: Intents,
    player: PlayerState,
    body: PhysicsBody,
    camera: Camera,
) -> bool {
    &&& walk_fits(player, body.position.x as int, intents.move_left, intents.move_right)
    &&& thrust_fits(
        steered_player(player, intents),
        intents.jump,
        intents.ski_push,
        body.linear_velocity.x as int,
    )
    &&& zoom_fits(camera.log_scale as int, intents.zoom_in, intents.zoom_out)
}

/// Whether `fixed_step` can be run on these values: decides `step_fits`.
pub fn fits(
    intents: &Intents,
    player: &PlayerState,
    body: &PhysicsBody,
    camera: &Camera,
) -> (r: bool)
    ensures
        r == step_fits(*intents, *player, *body, *camera),
{
    let steered = PlayerState {
        jump_power: player.jump_power,
        is_jumping: player.is_jumping,
        is_skiing: player.is_skiing,
        direction: steer(intents.move_left, intents.move_right, player),
    };
    can_walk(intents.move_left, intents.move_right, player, body) && can_thrust(
        intents.jump,
        intents.ski_push,
        &steered,
        body,
    ) && can_zoom(intents.zoom_in, intents.zoom_out, camera)
}

/// Runs one fixed step: locomotion, jump and thrust, and balance on the
/// step's intents; then the ground contact tracker on the step's collision
/// events; then the camera rig. The airborne flag that gates this step's
/// intents is the one that the previous step left: the events of this step
/// take effect from the next step on.
pub fn fixed_step(
    intents: &Intents,
    entity: u64,
    events: &Vec<CollisionEvent>,
    player: &mut PlayerState,
    body: &mut PhysicsBody,
    camera: &mut Camera,
)
    requires
        step_fits(*intents, *old(player), *old(body), *old(camera)),
    ensures
        *final(player) == (PlayerState {
            is_jumping: airborne_after(events@, entity, old(player).is_jumping),
            ..steered_player(*old(player), *intents)
        }),
        final(body).position.x == walked_x(
            *old(player),
            old(body).position.x as int,
            intents.move_left,
            intents.move_right,
        ),
        final(body).position.y == old(body).position.y,
        final(body).linear_velocity.x == thrust_x(
            steered_player(*old(player), *intents),
            intents.jump,
            intents.ski_push,
            old(body).linear_velocity.x as int,
        ),
        final(body).linear_velocity.y == thrust_y(
            *old(player),
            intents.jump,
            old(body).linear_velocity.y as int,
        ),
        final(body).angular_velocity == balance_step(
            old(body).angular_velocity as int,
            intents.rotate_positive,
            intents.rotate_negative,
        ),
        final(camera).position == final(body).position,
        final(camera).log_scale == zoomed(
            old(camera).log_scale as int,
            intents.zoom_in,
            intents.zoom_out,
        ),
        old(player).is_jumping ==> final(player).direction == old(player).direction,
        old(player).is_jumping ==> final(body).linear_velocity == old(body).linear_velocity,
{
    move_player(intents.move_left, intents.move_right, player, body);
    player_jump_ski(intents.jump, intents.ski_push, player, body);
    rotate_player(intents.rotate_positive, intents.rotate_negative, body);
    jump_reset(entity, player, events);
    camera_follow_player(camera, body);
    player_camera_control(intents.zoom_in, intents.zoom_out, camera);
}

/// While the player is airborne a step mutates neither the direction nor
/// the linear velocity, whatever the intents.
pub proof fn lemma_airborne_step_is_gated(player: PlayerState, intents: Intents, x: int, y: int)
    requires
        player.is_jumping,
    ensures
        steered_player(player, intents) == player,
        thrust_x(steered_player(player, intents), intents.jump, intents.ski_push, x) == x,
        thrust_y(player, intents.jump, y) == y,
{
}

/// An airborne player stays exactly as it is through a step whose events do
/// not touch it, whatever the intents.
pub proof fn lemma_airborne_persists(
    player: PlayerState,
    intents: Intents,
    events: Seq<CollisionEvent>,
    entity: u64,
)
    requires
        player.is_jumping,
        forall|i: int| 0 <= i < events.len() ==> !(#[trigger] events[i]).touches(entity),
    ensures
        (PlayerState {
            is_jumping: airborne_after(events, entity, player.is_jumping),
            ..steered_player(player, intents)
        }) == player,
{
    lemma_foreign_events_ignored(events, entity, player.is_jumping);
}

/// A contact that starts during a step grounds the player for the next one:
/// when the last event that touches the player is a start, the next step's
/// jump sets the jump velocity and its ski push adds the thrust.
pub proof fn lemma_landing_restores_control(
    player: PlayerState,
    intents: Intents,
    events: Seq<CollisionEvent>,
    entity: u64,
    x: int,
    y: int,
)
    requires
        events.len() > 0,
        events.last().touches(entity),
        !events.last().lifts(),
    ensures
        ({
            let landed = PlayerState {
                is_jumping: airborne_after(events, entity, player.is_jumping),
                ..steered_player(player, intents)
            };
            &&& !landed.is_jumping
            &&& thrust_y(landed, true, y) == jump_velocity(landed.jump_power)
            &&& landed.is_skiing ==> thrust_x(landed, false, true, x) == x + THRUST
                * landed.direction.sign()
        }),
{
}

} // verus!
