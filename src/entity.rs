use vstd::prelude::*;

verus! {

/// Something that the world advances by one tick at a time.
pub trait EntityTrait {
    fn tick(&mut self);
}

/// What a collision-resolving move leaves behind: the entity's contact flags
/// and which motion components stop dead.
#[derive(Debug, Clone, Copy, PartialEq, Eq, Structural)]
pub struct MoveOutcome {
    pub on_ground: bool,
    pub collided_horizontally: bool,
    pub collided_vertically: bool,
    pub stop_x: bool,
    pub stop_y: bool,
    pub stop_z: bool,
}

/// The outcome of a move from which of its three axes an obstacle clipped,
/// and whether the requested vertical offset pointed down.
pub open spec fn spec_move_outcome(
    x_clipped: bool,
    y_clipped: bool,
    z_clipped: bool,
    falling: bool,
) -> MoveOutcome {
    MoveOutcome {
        on_ground: y_clipped && falling,
        collided_horizontally: x_clipped || z_clipped,
        collided_vertically: y_clipped,
        stop_x: x_clipped,
        stop_y: y_clipped,
        stop_z: z_clipped,
    }
}

/// The contact flags after a move: a clipped horizontal axis is a horizontal
/// collision, a clipped vertical axis a vertical one, and a vertical clip
/// while falling puts the entity on the ground. Every clipped axis stops that
/// component of the motion.
pub fn move_outcome(x_clipped: bool, y_clipped: bool, z_clipped: bool, falling: bool) -> (r:
    MoveOutcome)
    ensures
        r == spec_move_outcome(x_clipped, y_clipped, z_clipped, falling),
{
    MoveOutcome {
        on_ground: y_clipped && falling,
        collided_horizontally: x_clipped || z_clipped,
        collided_vertically: y_clipped,
        stop_x: x_clipped,
        stop_y: y_clipped,
        stop_z: z_clipped,
    }
}

/// A charge's fuse after one tick: one less, never below zero.
pub fn fuse_after_tick(fuse: u32) -> (r: u32)
    ensures
        r == if fuse > 0 { fuse - 1 } else { 0 },
{
    if fuse > 0 {
        fuse - 1
    } else {
        0
    }
}

} // verus!
