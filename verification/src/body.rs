//! The part of the physics engine's body state that the controller reads and writes.

use vstd::prelude::*;

verus! {

/// A 2D vector in thousandths of the engine's unit.
#[derive(Clone, Copy, Debug, PartialEq, Eq, Structural)]
pub struct Vector2 {
    pub x: i64,
    pub y: i64,
}

/// Position, linear velocity and angular velocity of the player's rigid body.
#[derive(Clone, Copy, Debug, PartialEq, Eq, Structural)]
pub struct PhysicsBody {
    pub position: Vector2,
    pub linear_velocity: Vector2,
    pub angular_velocity: i64,
}

impl PhysicsBody {
    /// A body at rest at the given position.
    pub fn at_rest(position: Vector2) -> (r: PhysicsBody)
        ensures
            r == (PhysicsBody {
                position,
                linear_velocity: Vector2 { x: 0, y: 0 },
                angular_velocity: 0,
            }),
    {
        PhysicsBody { position, linear_velocity: Vector2 { x: 0, y: 0 }, angular_velocity: 0 }
    }
}

} // verus!
