//! The pentagon: five vertices, and the nine indices that cut it into three
//! triangles.
//!
//! Positions and colours are fractions. They are kept as counts of
//! [`UNIT`] equal parts of one, so that where the triangles face is a
//! matter of integer arithmetic.

use vstd::prelude::*;

verus! {

/// The number of parts that one is divided into.
pub const UNIT: i32 = 10000000;

/// The number of vertices of the pentagon.
pub const VERTEX_COUNT: u32 = 5;

/// The number of indices of the pentagon: three triangles.
pub const INDEX_COUNT: u32 = 9;

/// A corner of the pentagon: where it lies, in clip space, and its colour.
/// Every field counts parts of [`UNIT`].
#[derive(Clone, Copy, Debug, PartialEq, Eq, Structural)]
pub struct Vertex {
    pub x: i32,
    pub y: i32,
    pub z: i32,
    pub red: i32,
    pub green: i32,
    pub blue: i32,
}

impl Vertex {
    /// The position lies inside clip space and the colour inside the unit
    /// cube.
    pub open spec fn wf(self) -> bool {
        &&& -UNIT <= self.x <= UNIT
        &&& -UNIT <= self.y <= UNIT
        &&& 0 <= self.z <= UNIT
        &&& 0 <= self.red <= UNIT
        &&& 0 <= self.green <= UNIT
        &&& 0 <= self.blue <= UNIT
    }

    /// The two vertices lie at the same place.
    pub open spec fn same_place(self, other: Vertex) -> bool {
        self.x == other.x && self.y == other.y && self.z == other.z
    }
}

/// Twice the signed area of the triangle `a`, `b`, `c` as seen on the screen,
/// in squared parts of [`UNIT`]. It is positive where the corners run
/// counter-clockwise, negative where they run clockwise, and zero where the
/// triangle has collapsed to a line.
pub open spec fn winding(a: Vertex, b: Vertex, c: Vertex) -> int {
    (b.x - a.x) * (c.y - a.y) - (b.y - a.y) * (c.x - a.x)
}

/// The corners of the pentagon, counter-clockwise from the top.
pub open spec fn pentagon_vertices() -> Seq<Vertex> {
    seq![
        Vertex { x: 0, y: 5000000, z: 0, red: 5000000, green: 0, blue: 5000000 },
        Vertex { x: -4755283 as i32, y: 1545085, z: 0, red: 5000000, green: 0, blue: 5000000 },
        Vertex { x: -2938926 as i32, y: -4045085 as i32, z: 0, red: 5000000, green: 0, blue: 5000000 },
        Vertex { x: 2938926, y: -4045085 as i32, z: 0, red: 5000000, green: 0, blue: 5000000 },
        Vertex { x: 4755283, y: 1545085, z: 0, red: 5000000, green: 0, blue: 5000000 },
    ]
}

/// The triangles of the pentagon, three indices each.
pub open spec fn pentagon_indices() -> Seq<u16> {
    seq![0u16, 1u16, 4u16, 1u16, 2u16, 4u16, 2u16, 3u16, 4u16]
}

/// The corner of the pentagon that index number `i` names.
pub open spec fn corner(i: int) -> Vertex {
    pentagon_vertices()[pentagon_indices()[i] as int]
}

/// The winding of triangle number `t` of the pentagon.
pub open spec fn triangle_winding(t: int) -> int {
    winding(corner(3 * t), corner(3 * t + 1), corner(3 * t + 2))
}

/// Some index names vertex number `v`.
pub open spec fn is_referenced(v: int) -> bool {
    exists|i: int| 0 <= i < pentagon_indices().len() && #[trigger] pentagon_indices()[i] == v
}

/// Builds the vertices of the pentagon.
pub fn vertices() -> (vertices: Vec<Vertex>)
    ensures
        vertices@ == pentagon_vertices(),
{
    let vertices = vec![
        Vertex { x: 0, y: 5000000, z: 0, red: 5000000, green: 0, blue: 5000000 },
        Vertex { x: -4755283, y: 1545085, z: 0, red: 5000000, green: 0, blue: 5000000 },
        Vertex { x: -2938926, y: -4045085, z: 0, red: 5000000, green: 0, blue: 5000000 },
        Vertex { x: 2938926, y: -4045085, z: 0, red: 5000000, green: 0, blue: 5000000 },
        Vertex { x: 4755283, y: 1545085, z: 0, red: 5000000, green: 0, blue: 5000000 },
    ];
    assert(vertices@ =~= pentagon_vertices());
    vertices
}

/// Builds the indices of the pentagon.
pub fn indices() -> (indices: Vec<u16>)
    ensures
        indices@ == pentagon_indices(),
{
    let indices = vec![0u16, 1u16, 4u16, 1u16, 2u16, 4u16, 2u16, 3u16, 4u16];
    assert(indices@ =~= pentagon_indices());
    indices
}

/// The pentagon is exactly three triangles over five distinct vertices: there
/// are nine indices, each names one of the five vertices, each vertex is
/// named by some index, and no two vertices lie at the same place.
pub proof fn lemma_pentagon_is_three_triangles()
    ensures
        pentagon_vertices().len() == VERTEX_COUNT == 5,
        pentagon_indices().len() == INDEX_COUNT == 3 * 3,
        forall|i: int| 0 <= i < pentagon_indices().len() ==> 0 <= #[trigger] pentagon_indices()[i] < VERTEX_COUNT,
        forall|v: int| 0 <= v < VERTEX_COUNT ==> #[trigger] is_referenced(v),
        forall|v: int, w: int|
            0 <= v < w < VERTEX_COUNT ==> !(#[trigger] pentagon_vertices()[v]).same_place(
                #[trigger] pentagon_vertices()[w],
            ),
        forall|v: int| 0 <= v < VERTEX_COUNT ==> (#[trigger] pentagon_vertices()[v]).wf(),
{
    let indices = pentagon_indices();
    assert(indices[0] == 0 && indices[1] == 1 && indices[4] == 2 && indices[7] == 3 && indices[2] == 4);
}

/// Every triangle of the pentagon runs counter-clockwise, so it has an area,
/// and with counter-clockwise front faces, culling the back faces removes
/// none of the three.
pub proof fn lemma_pentagon_faces_front()
    ensures
        forall|t: int| 0 <= t < 3 ==> #[trigger] triangle_winding(t) > 0,
        triangle_winding(0) == 32858197131890,
        triangle_winding(1) == 53165680736220,
        triangle_winding(2) == 32858191914840,
{
    let v = pentagon_vertices();
    assert(corner(0) == v[0] && corner(1) == v[1] && corner(2) == v[4]);
    assert(corner(3) == v[1] && corner(4) == v[2] && corner(5) == v[4]);
    assert(corner(6) == v[2] && corner(7) == v[3] && corner(8) == v[4]);
    assert(winding(v[0], v[1], v[4]) == (-4755283) * (-3454915) - (-3454915) * 4755283);
    assert(winding(v[1], v[2], v[4]) == 1816357 * 0 - (-5590170) * 9510566);
    assert(winding(v[2], v[3], v[4]) == 5877852 * 5590170 - 0 * 7694209);
}

} // verus!
