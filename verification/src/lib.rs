//! Building blocks for an articulated cuboid rig: a tiled-texture box mesh
//! and a blended joint-target controller, both over exact integer arithmetic.

pub mod ratio;
pub mod cuboid_uvcustom;
pub mod movement;
pub mod golem;
