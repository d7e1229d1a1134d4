//! A 2D side-view skier controller: locomotion, jump and thrust, ground
//! contact tracking, angular balance and a camera rig, as pure state updates
//! over fixed-point quantities.
//!
//! Every quantity that a physics engine would hold as a real number is held
//! here as an `i64` counted in thousandths of the engine's unit, so that each
//! update is exact and its contract can say precisely what it yields.

pub mod units;
pub mod player;
pub mod body;
pub mod locomotion;
pub mod thrust;
pub mod contact;
pub mod balance;
pub mod camera;
pub mod step;
