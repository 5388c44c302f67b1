//! The golem: a head with two arms, told apart by the atlas cells of their
//! faces and by the ends of their sweeps.

use vstd::prelude::*;
use crate::cuboid_uvcustom::{CuboidTiled, HALF_UNIT};
use crate::movement::ImpulseTargets;

verus! {

/// The head: a unit box on a two-by-two atlas with the face drawn in front.
pub fn make_golem_mesh_head() -> (cuboid: CuboidTiled)
    ensures
        forall|a: int| 0 <= a < 3 ==> #[trigger] cuboid.half_size[a] == HALF_UNIT,
        forall|a: int| 0 <= a < 2 ==> #[trigger] cuboid.tile_count[a] == 2,
        cuboid.face[0][0] == 1 && cuboid.face[0][1] == 0,
        forall|f: int, a: int| 1 <= f < 4 && 0 <= a < 2 ==> #[trigger] cuboid.face[f][a] == 1,
        forall|f: int| 4 <= f < 6 ==> (#[trigger] cuboid.face[f])[0] == 0 && cuboid.face[f][1] == 1,
{
    CuboidTiled {
        half_size: [HALF_UNIT, HALF_UNIT, HALF_UNIT],
        tile_count: [2, 2],
        face: [[1, 0], [1, 1], [1, 1], [1, 1], [0, 1], [0, 1]],
    }
}

/// A body part: a unit box that shows the first cell of a two-by-two atlas
/// on every face.
pub fn make_golem_mesh_body() -> (cuboid: CuboidTiled)
    ensures
        forall|a: int| 0 <= a < 3 ==> #[trigger] cuboid.half_size[a] == HALF_UNIT,
        forall|a: int| 0 <= a < 2 ==> #[trigger] cuboid.tile_count[a] == 2,
        forall|f: int, a: int| 0 <= f < 6 && 0 <= a < 2 ==> #[trigger] cuboid.face[f][a] == 0,
{
    CuboidTiled {
        half_size: [HALF_UNIT, HALF_UNIT, HALF_UNIT],
        tile_count: [2, 2],
        face: [[0, 0], [0, 0], [0, 0], [0, 0], [0, 0], [0, 0]],
    }
}

/// The ends of the golem's sweeps: the first arm rests pushed out by one
/// world unit and is drawn in, the second rests drawn in and is pushed out.
pub fn golem_targets() -> (targets: ImpulseTargets)
    ensures
        targets.wf(),
        targets.from@ == seq![0i64, 1_000_000i64, 1_000_000i64, 0i64, 0i64],
        targets.to@ == seq![0i64, 0i64, 0i64, 1_000_000i64, 1_000_000i64],
{
    let from: Vec<i64> = vec![0i64, 1_000_000i64, 1_000_000i64, 0i64, 0i64];
    let to: Vec<i64> = vec![0i64, 0i64, 0i64, 1_000_000i64, 1_000_000i64];
    ImpulseTargets { from, to }
}

/// Number of parts of the golem: the head, and an arm and a hand on each side.
pub const GOLEM_PARTS: usize = 5;

/// Where the head first stands in the world, one coordinate at a time, in
/// millionths: three world units above the origin.
pub open spec fn start_position(axis: int) -> int {
    if axis == 1 {
        3_000_000
    } else {
        0
    }
}

/// Where each part stands relative to the head, one coordinate at a time, in
/// millionths: the first arm and its hand hang below the head, the second arm
/// and its hand stand out to either side one unit below it.
pub open spec fn part_offset(part: int, axis: int) -> int {
    if axis == 0 {
        if part == 3 {
            1_000_000
        } else if part == 4 {
            -1_000_000
        } else {
            0
        }
    } else if axis == 1 {
        if part == 0 {
            0
        } else if part == 2 {
            -2_000_000
        } else {
            -1_000_000
        }
    } else {
        0
    }
}

/// The offset of a part from the head.
pub fn golem_offset(part: usize) -> (offset: [i64; 3])
    requires
        part < GOLEM_PARTS,
    ensures
        forall|axis: int| 0 <= axis < 3 ==> #[trigger] offset[axis] == part_offset(part as int, axis),
{
    if part == 0 {
        [0, 0, 0]
    } else if part == 1 {
        [0, -1_000_000, 0]
    } else if part == 2 {
        [0, -2_000_000, 0]
    } else if part == 3 {
        [1_000_000, -1_000_000, 0]
    } else {
        [-1_000_000, -1_000_000, 0]
    }
}

/// Where a part first stands in the world.
pub fn part_translation(part: usize) -> (translation: [i64; 3])
    requires
        part < GOLEM_PARTS,
    ensures
        forall|axis: int|
            0 <= axis < 3 ==> #[trigger] translation[axis] == start_position(axis) + part_offset(
                part as int,
                axis,
            ),
{
    let offset = golem_offset(part);
    [offset[0], 3_000_000 + offset[1], offset[2]]
}

/// Where the joint to the head is anchored on a part: at the head's centre,
/// seen from the part.
pub fn joint_anchor(part: usize) -> (anchor: [i64; 3])
    requires
        part < GOLEM_PARTS,
    ensures
        forall|axis: int| 0 <= axis < 3 ==> #[trigger] anchor[axis] == -part_offset(part as int, axis),
{
    let offset = golem_offset(part);
    [-offset[0], -offset[1], -offset[2]]
}

/// Where a part stands relative to the part that carries it.
pub fn child_offset(parent: usize, child: usize) -> (offset: [i64; 3])
    requires
        parent < GOLEM_PARTS,
        child < GOLEM_PARTS,
    ensures
        forall|axis: int|
            0 <= axis < 3 ==> #[trigger] offset[axis] == part_offset(child as int, axis)
                - part_offset(parent as int, axis),
{
    let from = golem_offset(parent);
    let to = golem_offset(child);
    [to[0] - from[0], to[1] - from[1], to[2] - from[2]]
}

} // verus!
