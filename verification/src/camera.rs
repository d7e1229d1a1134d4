//! The camera rig: locked onto the player, zoomed on a logarithmic scale.

use vstd::prelude::*;
use crate::body::{PhysicsBody, Vector2};
use crate::units::ZOOM_DELTA;

verus! {

/// The camera's position and the logarithm of its displayed scale.
#[derive(Clone, Copy, Debug, PartialEq, Eq, Structural)]
pub struct Camera {
    pub position: Vector2,
    /// Natural logarithm of the displayed scale, in thousandths.
    pub log_scale: i64,
}

/// The logarithmic scale after the zoom intents: zooming in lowers it by the
/// zoom delta, zooming out raises it, both at once cancel.
pub open spec fn zoomed(log_scale: int, zoom_in: bool, zoom_out: bool) -> int {
    log_scale - (if zoom_in { ZOOM_DELTA as int } else { 0 }) + (if zoom_out {
        ZOOM_DELTA as int
    } else {
        0
    })
}

/// Whether the logarithmic scale after the zoom intents is within the range
/// of its representation.
pub open spec fn zoom_fits(log_scale: int, zoom_in: bool, zoom_out: bool) -> bool {
    i64::MIN <= zoomed(log_scale, zoom_in, zoom_out) <= i64::MAX
}

/// Whether `player_camera_control` can be run on these values: decides `zoom_fits`.
pub fn can_zoom(zoom_in: bool, zoom_out: bool, camera: &Camera) -> (r: bool)
    ensures
        r == zoom_fits(camera.log_scale as int, zoom_in, zoom_out),
{
    if zoom_in == zoom_out {
        true
    } else if zoom_in {
        camera.log_scale >= i64::MIN + ZOOM_DELTA
    } else {
        camera.log_scale <= i64::MAX - ZOOM_DELTA
    }
}

/// Locks the camera onto the player: its position becomes the body's, with
/// no smoothing. The zoom is not touched.
pub fn camera_follow_player(camera: &mut Camera, body: &PhysicsBody)
    ensures
        final(camera).position == body.position,
        final(camera).log_scale == old(camera).log_scale,
{
    camera.position.x = body.position.x;
    camera.position.y = body.position.y;
}

/// Applies the zoom intents of one step to the camera's logarithmic scale.
/// The position is not touched.
pub fn player_camera_control(zoom_in: bool, zoom_out: bool, camera: &mut Camera)
    requires
        zoom_fits(old(camera).log_scale as int, zoom_in, zoom_out),
    ensures
        final(camera).log_scale == zoomed(old(camera).log_scale as int, zoom_in, zoom_out),
        final(camera).position == old(camera).position,
{
    if zoom_in && !zoom_out {
        camera.log_scale = camera.log_scale - ZOOM_DELTA;
    } else if zoom_out && !zoom_in {
        camera.log_scale = camera.log_scale + ZOOM_DELTA;
    }
}

/// A zoom intent changes the logarithmic scale by the same amount at every
/// zoom level, so zooming in and then out comes back to where it started.
pub proof fn lemma_zoom_is_relative(a: int, b: int)
    ensures
        zoomed(a, true, false) - a == zoomed(b, true, false) - b,
        zoomed(a, false, true) - a == zoomed(b, false, true) - b,
        zoomed(zoomed(a, true, false), false, true) == a,
        zoomed(a, true, true) == a,
{
}

} // verus!
