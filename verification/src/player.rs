//! The player's own state: jump power, airborne and skiing flags, facing.

use vstd::prelude::*;

verus! {

/// Facing and thrust direction while skiing.
#[derive(Clone, Copy, Debug, PartialEq, Eq, Structural)]
pub enum Direction {
    Left,
    Right,
}

impl Direction {
    /// The direction as a factor: `-1` for left, `+1` for right.
    pub open spec fn sign(self) -> int {
        match self {
            Direction::Left => -1,
            Direction::Right => 1,
        }
    }

    /// The direction as a factor: `-1` for left, `+1` for right.
    pub fn signum(self) -> (s: i64)
        ensures
            s == self.sign(),
    {
        match self {
            Direction::Left => -1,
            Direction::Right => 1,
        }
    }
}

/// The two states of the ground contact machine.
#[derive(Clone, Copy, Debug, PartialEq, Eq, Structural)]
pub enum GroundState {
    /// In contact with terrain: jump, ski push and steering are open.
    Grounded,
    /// Out of contact: jump, ski push and steering are gated.
    Airborne,
}

/// How the move intents act on the body.
#[derive(Clone, Copy, Debug, PartialEq, Eq, Structural)]
pub enum LocomotionMode {
    /// On foot: the position is written directly, past the engine's integrator.
    Kinematic,
    /// On skis: only velocities are written, and the engine moves the body.
    Dynamic,
}

/// The state that the controller owns for its one player.
#[derive(Clone, Copy, Debug, PartialEq, Eq, Structural)]
pub struct PlayerState {
    /// Scale of the jump velocity, in thousandths; positive.
    pub jump_power: u32,
    /// True while airborne: no jump, no ski push, no steering.
    pub is_jumping: bool,
    /// True while on skis: move intents steer instead of walking.
    pub is_skiing: bool,
    /// Facing and thrust direction while skiing.
    pub direction: Direction,
}

impl PlayerState {
    /// A player state is well formed when its jump power is positive.
    pub open spec fn well_formed(self) -> bool {
        self.jump_power > 0
    }

    /// The state at world setup: grounded, on foot, facing right, jump power one.
    pub open spec fn initial() -> PlayerState {
        PlayerState {
            jump_power: 1_000,
            is_jumping: false,
            is_skiing: false,
            direction: Direction::Right,
        }
    }

    /// The state of the ground contact machine that the airborne flag stands for.
    pub open spec fn ground(self) -> GroundState {
        if self.is_jumping {
            GroundState::Airborne
        } else {
            GroundState::Grounded
        }
    }

    /// The locomotion mode that the skiing flag stands for.
    pub open spec fn mode(self) -> LocomotionMode {
        if self.is_skiing {
            LocomotionMode::Dynamic
        } else {
            LocomotionMode::Kinematic
        }
    }

    /// The state of the ground contact machine.
    pub fn ground_state(&self) -> (r: GroundState)
        ensures
            r == self.ground(),
    {
        if self.is_jumping {
            GroundState::Airborne
        } else {
            GroundState::Grounded
        }
    }

    /// The locomotion mode.
    pub fn locomotion_mode(&self) -> (r: LocomotionMode)
        ensures
            r == self.mode(),
    {
        if self.is_skiing {
            LocomotionMode::Dynamic
        } else {
            LocomotionMode::Kinematic
        }
    }

    /// A player with the given jump power, otherwise as at world setup;
    /// `None` when the jump power is not positive.
    pub fn with_jump_power(jump_power: u32) -> (r: Option<PlayerState>)
        ensures
            r.is_some() <==> jump_power > 0,
            r.is_some() ==> r.unwrap() == (PlayerState { jump_power, ..PlayerState::initial() }),
            r.is_some() ==> r.unwrap().well_formed(),
    {
        if jump_power > 0 {
            Some(PlayerState {
                jump_power,
                is_jumping: false,
                is_skiing: false,
                direction: Direction::Right,
            })
        } else {
            None
        }
    }
}

impl Default for PlayerState {
    /// The state at world setup.
    fn default() -> (r: PlayerState)
        ensures
            r == PlayerState::initial(),
            r.well_formed(),
            r.ground() == GroundState::Grounded,
            r.mode() == LocomotionMode::Kinematic,
    {
        PlayerState {
            jump_power: 1_000,
            is_jumping: false,
            is_skiing: false,
            direction: Direction::Right,
        }
    }
}

} // verus!
