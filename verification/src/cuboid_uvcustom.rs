//! A box mesh whose six faces each show their own cell of a texture atlas.
//!
//! Lengths are whole millionths of a world unit and texture coordinates are
//! exact fractions, so a mesh is the same on every machine.

use vstd::prelude::*;
use crate::ratio::{cell_edge, tile_edge, Ratio};

verus! {

/// Half a world unit, in millionths.
pub const HALF_UNIT: u32 = 500_000;

/// A box and the atlas cell that each of its faces shows.
#[derive(Clone, Copy, Debug)]
pub struct CuboidTiled {
    /// Half of the width, height and depth, in millionths of a world unit.
    pub half_size: [u32; 3],
    /// The number of atlas tiles across and down.
    pub tile_count: [usize; 2],
    /// The atlas cell `[column, row]` of each face, in the order
    /// front, back, right, left, top, bottom.
    pub face: [[usize; 2]; 6],
}

/// What is left of a `CuboidTiled` once every cell is resolved to its
/// rectangle in texture space.
#[derive(Clone, Copy, Debug)]
pub struct CuboidTiledMeshBuilder {
    /// Half of the width, height and depth, in millionths of a world unit.
    pub half_size: [u32; 3],
    /// For each face its near corner `uv[face][0]` and its far corner
    /// `uv[face][1]`, each as `[u, v]`.
    pub uv: [[[Ratio; 2]; 2]; 6],
}

/// The arrays that a renderer takes: one position, normal and texture
/// coordinate for each vertex, and the triangle list over them.
#[derive(Debug)]
pub struct MeshBuffer {
    /// Vertex positions, in millionths of a world unit.
    pub positions: Vec<[i64; 3]>,
    /// Vertex normals; each is one of the six axis directions.
    pub normals: Vec<[i8; 3]>,
    /// Texture coordinates `[u, v]`.
    pub uvs: Vec<[Ratio; 2]>,
    /// Three indices into the vertex arrays for each triangle.
    pub indices: Vec<u32>,
}

/// The face that vertex `vertex` belongs to.
pub open spec fn face_of(vertex: int) -> int {
    vertex / 4
}

/// For each axis, whether the vertex sits at the high end of the box (`true`)
/// or at the low end (`false`).
pub open spec fn corner(vertex: int) -> (bool, bool, bool) {
    if vertex == 0 { (false, false, true) }
    else if vertex == 1 { (true, false, true) }
    else if vertex == 2 { (true, true, true) }
    else if vertex == 3 { (false, true, true) }
    else if vertex == 4 { (false, true, false) }
    else if vertex == 5 { (true, true, false) }
    else if vertex == 6 { (true, false, false) }
    else if vertex == 7 { (false, false, false) }
    else if vertex == 8 { (true, false, false) }
    else if vertex == 9 { (true, true, false) }
    else if vertex == 10 { (true, true, true) }
    else if vertex == 11 { (true, false, true) }
    else if vertex == 12 { (false, false, true) }
    else if vertex == 13 { (false, true, true) }
    else if vertex == 14 { (false, true, false) }
    else if vertex == 15 { (false, false, false) }
    else if vertex == 16 { (true, true, false) }
    else if vertex == 17 { (false, true, false) }
    else if vertex == 18 { (false, true, true) }
    else if vertex == 19 { (true, true, true) }
    else if vertex == 20 { (true, false, true) }
    else if vertex == 21 { (false, false, true) }
    else if vertex == 22 { (false, false, false) }
    else { (true, false, false) }
}

/// Whether the vertex sits at the high end of `axis` (0 is x, 1 is y, 2 is z).
pub open spec fn at_high_end(vertex: int, axis: int) -> bool {
    if axis == 0 {
        corner(vertex).0
    } else if axis == 1 {
        corner(vertex).1
    } else {
        corner(vertex).2
    }
}

/// `1` for the high end of an axis, `-1` for the low end.
pub open spec fn corner_sign(vertex: int, axis: int) -> int {
    if at_high_end(vertex, axis) { 1 } else { -1 }
}

/// One coordinate of a vertex of the box with the given half size.
pub open spec fn vertex_position(half_size: [u32; 3], vertex: int, axis: int) -> int {
    if at_high_end(vertex, axis) {
        half_size[axis] as int
    } else {
        -(half_size[axis] as int)
    }
}

/// The outward direction of a face: front is +z, back -z, right +x, left -x,
/// top +y, bottom -y.
pub open spec fn face_normal(face: int) -> (int, int, int) {
    if face == 0 { (0, 0, 1) }
    else if face == 1 { (0, 0, -1) }
    else if face == 2 { (1, 0, 0) }
    else if face == 3 { (-1, 0, 0) }
    else if face == 4 { (0, 1, 0) }
    else { (0, -1, 0) }
}

/// One component of the outward direction of a face.
pub open spec fn normal_component(face: int, axis: int) -> int {
    if axis == 0 {
        face_normal(face).0
    } else if axis == 1 {
        face_normal(face).1
    } else {
        face_normal(face).2
    }
}

/// Which corner of its face's texture rectangle a vertex samples: whether it
/// takes the far edge in `u`, and whether it takes the far edge in `v`.
pub open spec fn uv_corner(vertex: int) -> (bool, bool) {
    if vertex == 0 { (false, true) }
    else if vertex == 1 { (true, true) }
    else if vertex == 2 { (true, false) }
    else if vertex == 3 { (false, false) }
    else if vertex == 4 { (true, false) }
    else if vertex == 5 { (false, false) }
    else if vertex == 6 { (false, true) }
    else if vertex == 7 { (true, true) }
    else if vertex == 8 { (true, true) }
    else if vertex == 9 { (true, false) }
    else if vertex == 10 { (false, false) }
    else if vertex == 11 { (false, true) }
    else if vertex == 12 { (true, true) }
    else if vertex == 13 { (true, false) }
    else if vertex == 14 { (false, false) }
    else if vertex == 15 { (false, true) }
    else if vertex == 16 { (true, false) }
    else if vertex == 17 { (false, false) }
    else if vertex == 18 { (false, true) }
    else if vertex == 19 { (true, true) }
    else if vertex == 20 { (true, true) }
    else if vertex == 21 { (false, true) }
    else if vertex == 22 { (false, false) }
    else { (true, false) }
}

/// Whether the vertex takes the far edge of its rectangle on texture axis
/// `axis` (0 is u, 1 is v).
pub open spec fn samples_far_edge(vertex: int, axis: int) -> bool {
    if axis == 0 {
        uv_corner(vertex).0
    } else {
        uv_corner(vertex).1
    }
}

/// The vertex that index `i` of the triangle list names: each face brings
/// the two triangles `0 1 2` and `2 3 0` over its own four vertices.
pub open spec fn triangle_corner(i: int) -> int {
    let slot = i % 6;
    4 * (i / 6) + if slot <= 2 {
        slot
    } else if slot == 3 {
        2
    } else if slot == 4 {
        3
    } else {
        0
    }
}

impl CuboidTiledMeshBuilder {
    /// One texture coordinate of a vertex, picked from its face's rectangle.
    pub open spec fn vertex_uv(&self, vertex: int, axis: int) -> Ratio {
        self.uv[face_of(vertex)][if samples_far_edge(vertex, axis) { 1int } else { 0int }][axis]
    }

    /// Lays out the 24 vertices and 36 indices of the box.
    pub fn build(&self) -> (mesh: MeshBuffer)
        ensures
            mesh.wf(),
            forall|v: int, a: int|
                0 <= v < 24 && 0 <= a < 3 ==> #[trigger] mesh.positions@[v][a]
                    == vertex_position(self.half_size, v, a),
            forall|v: int, a: int|
                0 <= v < 24 && 0 <= a < 3 ==> #[trigger] mesh.normals@[v][a] == normal_component(
                    face_of(v),
                    a,
                ),
            forall|v: int, a: int|
                0 <= v < 24 && 0 <= a < 2 ==> #[trigger] mesh.uvs@[v][a] == self.vertex_uv(v, a),
            forall|i: int| 0 <= i < 36 ==> #[trigger] mesh.indices@[i] == triangle_corner(i),
    {
        let min: [i64; 3] = [
            -(self.half_size[0] as i64),
            -(self.half_size[1] as i64),
            -(self.half_size[2] as i64),
        ];
        let max: [i64; 3] = [
            self.half_size[0] as i64,
            self.half_size[1] as i64,
            self.half_size[2] as i64,
        ];
        let uv = &self.uv;

        let positions: Vec<[i64; 3]> = vec![
            // front
            [min[0], min[1], max[2]],
            [max[0], min[1], max[2]],
            [max[0], max[1], max[2]],
            [min[0], max[1], max[2]],
            // back
            [min[0], max[1], min[2]],
            [max[0], max[1], min[2]],
            [max[0], min[1], min[2]],
            [min[0], min[1], min[2]],
            // right
            [max[0], min[1], min[2]],
            [max[0], max[1], min[2]],
            [max[0], max[1], max[2]],
            [max[0], min[1], max[2]],
            // left
            [min[0], min[1], max[2]],
            [min[0], max[1], max[2]],
            [min[0], max[1], min[2]],
            [min[0], min[1], min[2]],
            // top
            [max[0], max[1], min[2]],
            [min[0], max[1], min[2]],
            [min[0], max[1], max[2]],
            [max[0], max[1], max[2]],
            // bottom
            [max[0], min[1], max[2]],
            [min[0], min[1], max[2]],
            [min[0], min[1], min[2]],
            [max[0], min[1], min[2]],
        ];
        let normals: Vec<[i8; 3]> = vec![
            [0i8, 0i8, 1i8], [0i8, 0i8, 1i8], [0i8, 0i8, 1i8], [0i8, 0i8, 1i8],
            [0i8, 0i8, -1i8], [0i8, 0i8, -1i8], [0i8, 0i8, -1i8], [0i8, 0i8, -1i8],
            [1i8, 0i8, 0i8], [1i8, 0i8, 0i8], [1i8, 0i8, 0i8], [1i8, 0i8, 0i8],
            [-1i8, 0i8, 0i8], [-1i8, 0i8, 0i8], [-1i8, 0i8, 0i8], [-1i8, 0i8, 0i8],
            [0i8, 1i8, 0i8], [0i8, 1i8, 0i8], [0i8, 1i8, 0i8], [0i8, 1i8, 0i8],
            [0i8, -1i8, 0i8], [0i8, -1i8, 0i8], [0i8, -1i8, 0i8], [0i8, -1i8, 0i8],
        ];
        let uvs: Vec<[Ratio; 2]> = vec![
            // front
            [uv[0][0][0], uv[0][1][1]],
            [uv[0][1][0], uv[0][1][1]],
            [uv[0][1][0], uv[0][0][1]],
            [uv[0][0][0], uv[0][0][1]],
            // back
            [uv[1][1][0], uv[1][0][1]],
            [uv[1][0][0], uv[1][0][1]],
            [uv[1][0][0], uv[1][1][1]],
            [uv[1][1][0], uv[1][1][1]],
            // right
            [uv[2][1][0], uv[2][1][1]],
            [uv[2][1][0], uv[2][0][1]],
            [uv[2][0][0], uv[2][0][1]],
            [uv[2][0][0], uv[2][1][1]],
            // left
            [uv[3][1][0], uv[3][1][1]],
            [uv[3][1][0], uv[3][0][1]],
            [uv[3][0][0], uv[3][0][1]],
            [uv[3][0][0], uv[3][1][1]],
            // top
            [uv[4][1][0], uv[4][0][1]],
            [uv[4][0][0], uv[4][0][1]],
            [uv[4][0][0], uv[4][1][1]],
            [uv[4][1][0], uv[4][1][1]],
            // bottom
            [uv[5][1][0], uv[5][1][1]],
            [uv[5][0][0], uv[5][1][1]],
            [uv[5][0][0], uv[5][0][1]],
            [uv[5][1][0], uv[5][0][1]],
        ];
        let indices: Vec<u32> = vec![
            0u32, 1u32, 2u32, 2u32, 3u32, 0u32,  // front
            4u32, 5u32, 6u32, 6u32, 7u32, 4u32,  // back
            8u32, 9u32, 10u32, 10u32, 11u32, 8u32,  // right
            12u32, 13u32, 14u32, 14u32, 15u32, 12u32,  // left
            16u32, 17u32, 18u32, 18u32, 19u32, 16u32,  // top
            20u32, 21u32, 22u32, 22u32, 23u32, 20u32,  // bottom
        ];
        MeshBuffer { positions, normals, uvs, indices }
    }
}

impl MeshBuffer {
    /// The buffer has the fixed shape of a box mesh, and every index names a
    /// vertex.
    pub open spec fn wf(&self) -> bool {
        &&& self.positions@.len() == 24
        &&& self.normals@.len() == 24
        &&& self.uvs@.len() == 24
        &&& self.indices@.len() == 36
        &&& forall|i: int| 0 <= i < 36 ==> #[trigger] self.indices@[i] < 24
    }
}

impl CuboidTiled {
    /// The texture rectangle of a face, one edge at a time: on texture axis
    /// `axis`, the near edge of the face's cell or its far edge.
    pub open spec fn face_edge(&self, face: int, axis: int, far: bool) -> Ratio {
        tile_edge(self.face[face][axis], self.tile_count[axis], far)
    }

    /// Resolves the cell of every face to its rectangle in texture space.
    pub fn mesh(&self) -> (builder: CuboidTiledMeshBuilder)
        ensures
            builder.half_size == self.half_size,
            forall|f: int, end: int, a: int|
                0 <= f < 6 && 0 <= end < 2 && 0 <= a < 2 ==> #[trigger] builder.uv[f][end][a]
                    == self.face_edge(f, a, end == 1),
    {
        CuboidTiledMeshBuilder {
            half_size: self.half_size,
            uv: [
                tile_rect(self.face[0], self.tile_count),
                tile_rect(self.face[1], self.tile_count),
                tile_rect(self.face[2], self.tile_count),
                tile_rect(self.face[3], self.tile_count),
                tile_rect(self.face[4], self.tile_count),
                tile_rect(self.face[5], self.tile_count),
            ],
        }
    }

    /// The mesh of this box: every vertex of a face samples one corner of
    /// the face's atlas cell.
    pub fn into_mesh(self) -> (mesh: MeshBuffer)
        ensures
            mesh.wf(),
            forall|v: int, a: int|
                0 <= v < 24 && 0 <= a < 3 ==> #[trigger] mesh.positions@[v][a]
                    == vertex_position(self.half_size, v, a),
            forall|v: int, a: int|
                0 <= v < 24 && 0 <= a < 3 ==> #[trigger] mesh.normals@[v][a] == normal_component(
                    face_of(v),
                    a,
                ),
            forall|v: int, a: int|
                0 <= v < 24 && 0 <= a < 2 ==> #[trigger] mesh.uvs@[v][a] == self.face_edge(
                    face_of(v),
                    a,
                    samples_far_edge(v, a),
                ),
            forall|i: int| 0 <= i < 36 ==> #[trigger] mesh.indices@[i] == triangle_corner(i),
    {
        let builder = self.mesh();
        let mesh = builder.build();
        assert forall|v: int, a: int| 0 <= v < 24 && 0 <= a < 2 implies #[trigger] mesh.uvs@[v][a]
            == self.face_edge(face_of(v), a, samples_far_edge(v, a)) by {
            let end = if samples_far_edge(v, a) { 1int } else { 0int };
            assert(mesh.uvs@[v][a] == builder.vertex_uv(v, a));
            assert(builder.uv[face_of(v)][end][a] == self.face_edge(face_of(v), a, end == 1));
        }
        mesh
    }
}

/// The rectangle of one atlas cell: its near corner, then its far corner.
pub fn tile_rect(cell: [usize; 2], count: [usize; 2]) -> (rect: [[Ratio; 2]; 2])
    ensures
        forall|end: int, a: int|
            0 <= end < 2 && 0 <= a < 2 ==> #[trigger] rect[end][a] == tile_edge(
                cell[a],
                count[a],
                end == 1,
            ),
{
    [
        [cell_edge(cell[0], count[0], false), cell_edge(cell[1], count[1], false)],
        [cell_edge(cell[0], count[0], true), cell_edge(cell[1], count[1], true)],
    ]
}

impl Default for CuboidTiled {
    /// A box one world unit wide, high and deep that shows the whole texture
    /// on every face.
    fn default() -> (cuboid: Self)
        ensures
            forall|a: int| 0 <= a < 3 ==> #[trigger] cuboid.half_size[a] == HALF_UNIT,
            forall|a: int| 0 <= a < 2 ==> #[trigger] cuboid.tile_count[a] == 1,
            forall|f: int, a: int| 0 <= f < 6 && 0 <= a < 2 ==> #[trigger] cuboid.face[f][a] == 0,
    {
        CuboidTiled {
            half_size: [HALF_UNIT, HALF_UNIT, HALF_UNIT],
            tile_count: [1, 1],
            face: [[0, 0], [0, 0], [0, 0], [0, 0], [0, 0], [0, 0]],
        }
    }
}

impl Default for CuboidTiledMeshBuilder {
    /// The builder of a box one world unit wide, high and deep whose every
    /// face spans the whole texture.
    fn default() -> (builder: Self)
        ensures
            forall|a: int| 0 <= a < 3 ==> #[trigger] builder.half_size[a] == HALF_UNIT,
            forall|f: int, a: int|
                0 <= f < 6 && 0 <= a < 2 ==> #[trigger] builder.uv[f][0][a] == (Ratio {
                    numerator: 0,
                    denominator: 1,
                }),
            forall|f: int, a: int|
                0 <= f < 6 && 0 <= a < 2 ==> #[trigger] builder.uv[f][1][a] == (Ratio {
                    numerator: 1,
                    denominator: 1,
                }),
    {
        let zero = Ratio { numerator: 0, denominator: 1 };
        let one = Ratio { numerator: 1, denominator: 1 };
        let whole: [[Ratio; 2]; 2] = [[zero, zero], [one, one]];
        CuboidTiledMeshBuilder {
            half_size: [HALF_UNIT, HALF_UNIT, HALF_UNIT],
            uv: [whole, whole, whole, whole, whole, whole],
        }
    }
}

/// The size of `x` without its sign.
pub open spec fn magnitude(x: int) -> int {
    if x < 0 {
        -x
    } else {
        x
    }
}

/// The first vertex of triangle `triangle` is `triangle_point(triangle, 0)`, and
/// so on round the triangle.
pub open spec fn triangle_point(triangle: int, point: int) -> int {
    triangle_corner(3 * triangle + point)
}

/// One component of the cross product of the edges `p0 -> p1` and `p0 -> p2`
/// of a triangle, on the box whose half size is one in every direction.
pub open spec fn triangle_cross(triangle: int, axis: int) -> int {
    let p0 = triangle_point(triangle, 0);
    let p1 = triangle_point(triangle, 1);
    let p2 = triangle_point(triangle, 2);
    let b = (axis + 1) % 3;
    let c = (axis + 2) % 3;
    (corner_sign(p1, b) - corner_sign(p0, b)) * (corner_sign(p2, c) - corner_sign(p0, c)) - (
    corner_sign(p1, c) - corner_sign(p0, c)) * (corner_sign(p2, b) - corner_sign(p0, b))
}

/// Every index of the triangle list names a vertex of the face that the
/// triangle belongs to.
pub proof fn lemma_triangles_stay_on_their_face(i: int)
    requires
        0 <= i < 36,
    ensures
        0 <= triangle_corner(i) < 24,
        face_of(triangle_corner(i)) == i / 6,
{
}

/// Every normal is a unit vector along one axis, and every vertex lies on the
/// side of the box that its normal points to.
pub proof fn lemma_normals_are_unit_axes(vertex: int, axis: int)
    requires
        0 <= vertex < 24,
        0 <= axis < 3,
    ensures
        -1 <= normal_component(face_of(vertex), axis) <= 1,
        magnitude(normal_component(face_of(vertex), 0)) + magnitude(
            normal_component(face_of(vertex), 1),
        ) + magnitude(normal_component(face_of(vertex), 2)) == 1,
        normal_component(face_of(vertex), axis) != 0 ==> normal_component(face_of(vertex), axis)
            == corner_sign(vertex, axis),
{
    let f = face_of(vertex);
    assert(0 <= f < 6);
    assert(f == 0 || f == 1 || f == 2 || f == 3 || f == 4 || f == 5);
}

/// Both triangles of every face wind counter-clockwise when seen from
/// outside: the cross product of their edges points along the face's normal.
pub proof fn lemma_triangles_face_outward(triangle: int, axis: int)
    requires
        0 <= triangle < 12,
        0 <= axis < 3,
    ensures
        triangle_cross(triangle, axis) == 4 * normal_component(triangle / 2, axis),
{
    let p0 = triangle_point(triangle, 0);
    let p1 = triangle_point(triangle, 1);
    let p2 = triangle_point(triangle, 2);
    let b = (axis + 1) % 3;
    let c = (axis + 2) % 3;
    lemma_edge_product(
        corner_sign(p1, b) - corner_sign(p0, b),
        corner_sign(p2, c) - corner_sign(p0, c),
    );
    lemma_edge_product(
        corner_sign(p1, c) - corner_sign(p0, c),
        corner_sign(p2, b) - corner_sign(p0, b),
    );
}

/// The product of two edge components, each of which is -2, 0 or 2.
proof fn lemma_edge_product(x: int, y: int)
    requires
        x == -2 || x == 0 || x == 2,
        y == -2 || y == 0 || y == 2,
    ensures
        x * y == (if x == 0 || y == 0 {
            0int
        } else if x == y {
            4int
        } else {
            -4int
        }),
{
    assert(x * y == (if x == 0 || y == 0 {
        0int
    } else if x == y {
        4int
    } else {
        -4int
    })) by (nonlinear_arith)
        requires
            x == -2 || x == 0 || x == 2,
            y == -2 || y == 0 || y == 2,
    ;
}

/// The four vertices of a face stand at four different corners of the box
/// and sample four different corners of the face's texture rectangle, so
/// each corner of the rectangle is sampled exactly once.
pub proof fn lemma_face_corners_differ(v: int, w: int)
    requires
        0 <= v < 24,
        0 <= w < 24,
        v != w,
        face_of(v) == face_of(w),
    ensures
        uv_corner(v) != uv_corner(w),
        corner(v) != corner(w),
{
}

/// On the four upright faces the texture stands upright: a vertex is at the
/// top of the box exactly when it samples the near edge in `v`.
pub proof fn lemma_side_faces_are_upright(vertex: int)
    requires
        0 <= vertex < 16,
    ensures
        at_high_end(vertex, 1) == !samples_far_edge(vertex, 1),
{
}

/// Every texture coordinate of a face is an edge of the face's atlas cell,
/// the near one or the far one, and so lies within the cell's rectangle.
pub proof fn lemma_uvs_lie_on_cell_rectangle(cuboid: &CuboidTiled, vertex: int, axis: int)
    requires
        0 <= vertex < 24,
        0 <= axis < 2,
    ensures
        ({
            let face = face_of(vertex);
            let uv = cuboid.face_edge(face, axis, samples_far_edge(vertex, axis));
            let near = cuboid.face_edge(face, axis, false);
            let far = cuboid.face_edge(face, axis, true);
            &&& uv == near || uv == far
            &&& uv.wf()
            &&& near.le(uv)
            &&& uv.le(far)
        }),
{
    let face = face_of(vertex);
    crate::ratio::lemma_tile_edges_ordered(cuboid.face[face][axis], cuboid.tile_count[axis]);
}

/// On a one-by-one grid with every face on cell zero, every face spans the
/// whole texture, from zero to one in both directions.
pub proof fn lemma_single_tile_spans_texture(cuboid: &CuboidTiled, face: int, axis: int)
    requires
        0 <= face < 6,
        0 <= axis < 2,
        cuboid.tile_count[axis] == 1,
        cuboid.face[face][axis] == 0,
    ensures
        cuboid.face_edge(face, axis, false) == (Ratio { numerator: 0, denominator: 1 }),
        cuboid.face_edge(face, axis, true) == (Ratio { numerator: 1, denominator: 1 }),
        cuboid.face_edge(face, axis, false).is_zero(),
        cuboid.face_edge(face, axis, true).is_one(),
{
}

} // verus!
