use vstd::prelude::*;

verus! {

/// Corners of a triangle, by the place of their vertices in a mesh.
pub struct Triangle {
    pub a: int,
    pub b: int,
    pub c: int,
}

/// The triangle of three vertices.
pub open spec fn tri(a: int, b: int, c: int) -> Triangle {
    Triangle { a, b, c }
}

impl Triangle {
    /// The corner at place `k` of the triangle.
    pub open spec fn corner(self, k: int) -> int {
        if k == 0 {
            self.a
        } else if k == 1 {
            self.b
        } else {
            self.c
        }
    }

    /// Every corner names one of `count` vertices.
    pub open spec fn inside(self, count: int) -> bool {
        0 <= self.a < count && 0 <= self.b < count && 0 <= self.c < count
    }

    /// The three indices of the triangle.
    pub open spec fn indices(self) -> Seq<u32> {
        seq![self.a as u32, self.b as u32, self.c as u32]
    }
}

/// The index list of `count` triangles: three indices for each triangle,
/// in the order of the triangles.
pub open spec fn index_list(count: int, at: spec_fn(int) -> Triangle) -> Seq<u32> {
    Seq::new((3 * count) as nat, |k: int| at(k / 3).corner(k % 3) as u32)
}

/// Every index of the list is below `count`.
pub open spec fn all_below(indices: Seq<u32>, count: int) -> bool {
    forall|k: int| 0 <= k < indices.len() ==> (#[trigger] indices[k]) < count
}

/// The topology of an indexed mesh: how many vertices it has, and the
/// index list of its triangles.
#[derive(Clone, Debug, PartialEq, Eq)]
pub struct RMeshIndices {
    pub vertex_count: u32,
    pub indices: Vec<u32>,
}

impl RMeshIndices {
    /// Every index names a vertex of the mesh.
    pub open spec fn in_range(self) -> bool {
        all_below(self.indices@, self.vertex_count as int)
    }
}

/// One more triangle adds its three indices to the end of a list.
pub proof fn lemma_index_list_grows(base: Seq<u32>, count: int, at: spec_fn(int) -> Triangle)
    requires
        0 <= count,
    ensures
        base + index_list(count + 1, at) == (base + index_list(count, at)).push(
            at(count).a as u32,
        ).push(at(count).b as u32).push(at(count).c as u32),
        index_list(0, at) == Seq::<u32>::empty(),
        base + index_list(0, at) == base,
{
    assert(base + index_list(count + 1, at) =~= (base + index_list(count, at)).push(
        at(count).a as u32,
    ).push(at(count).b as u32).push(at(count).c as u32));
    assert(index_list(0, at) =~= Seq::<u32>::empty());
    assert(base + index_list(0, at) =~= base);
}

/// A list of triangles that all lie inside a mesh has only indices of
/// the mesh.
pub proof fn lemma_index_list_below(count: int, at: spec_fn(int) -> Triangle, vertices: int)
    requires
        0 <= count,
        0 <= vertices <= u32::MAX + 1,
        forall|t: int| 0 <= t < count ==> (#[trigger] at(t)).inside(vertices),
    ensures
        all_below(index_list(count, at), vertices),
{
    assert forall|k: int| 0 <= k < index_list(count, at).len() implies (#[trigger] index_list(
        count,
        at,
    )[k]) < vertices by {
        assert(at(k / 3).inside(vertices));
    }
}

/// Two lists with indices below a bound, one after the other, have their
/// indices below the bound.
pub proof fn lemma_below_joins(a: Seq<u32>, b: Seq<u32>, count: int)
    requires
        all_below(a, count),
        all_below(b, count),
    ensures
        all_below(a + b, count),
{
    assert forall|k: int| 0 <= k < (a + b).len() implies (#[trigger] (a + b)[k]) < count by {
        if k >= a.len() {
            assert((a + b)[k] == b[k - a.len()]);
        }
    }
}

/// Adds a triangle to an index list.
fn push_triangle(indices: &mut Vec<u32>, a: u32, b: u32, c: u32)
    ensures
        final(indices)@ == old(indices)@.push(a).push(b).push(c),
        final(indices)@ == old(indices)@ + tri(a as int, b as int, c as int).indices(),
{
    indices.push(a);
    indices.push(b);
    indices.push(c);
    assert(indices@ =~= old(indices)@ + tri(a as int, b as int, c as int).indices());
}

/// The triangle at place `i` of a strip that winds along two rows of
/// vertices, the rows taking turns: vertex `i` and the two after it, in
/// an order that keeps every triangle facing the same way.
pub open spec fn strip_triangle(i: int) -> Triangle {
    if i % 2 == 0 {
        tri(i + 1, i, i + 2)
    } else {
        tri(i, i + 1, i + 2)
    }
}

/// The vertex after vertex `i` on a ring of `sides` vertices.
pub open spec fn next_around(i: int, sides: int) -> int {
    if i + 1 >= sides {
        0
    } else {
        i + 1
    }
}

/// The vertex after vertex `i` on a ring of `sides` vertices.
fn next(i: u32, sides: u32) -> (n: u32)
    requires
        i < sides,
    ensures
        n == next_around(i as int, sides as int),
        n < sides,
{
    if i + 1 >= sides {
        0
    } else {
        i + 1
    }
}

/// The triangle at place `t` of the band between two neighbouring rings
/// of `sides` vertices, the upper ring beginning at vertex `first`: the
/// band is a row of quadrangles, each of two triangles.
pub open spec fn band_triangle(sides: int, first: int, t: int) -> Triangle {
    let i = t / 2;
    let upper = first;
    let lower = first + sides;
    if t % 2 == 0 {
        tri(upper + i, upper + next_around(i, sides), lower + next_around(i, sides))
    } else {
        tri(lower + next_around(i, sides), lower + i, upper + i)
    }
}

/// The index lists of `rows` bands, one below the other, the first band
/// beginning at vertex `first`.
pub open spec fn bands(sides: int, first: int, rows: int) -> Seq<u32>
    decreases rows,
{
    if rows <= 0 {
        Seq::empty()
    } else {
        bands(sides, first, rows - 1) + index_list(
            2 * sides,
            |t: int| band_triangle(sides, first + (rows - 1) * sides, t),
        )
    }
}

/// Bands between rings of a mesh name only vertices of those rings.
pub proof fn lemma_bands_below(sides: int, first: int, rows: int, vertices: int)
    requires
        0 <= sides,
        0 <= first,
        0 <= rows,
        first + (rows + 1) * sides <= vertices <= u32::MAX,
    ensures
        all_below(bands(sides, first, rows), vertices),
    decreases rows,
{
    if rows > 0 {
        assert(first + rows * sides <= first + (rows + 1) * sides) by (nonlinear_arith)
            requires
                0 <= sides,
                0 <= rows,
        ;
        lemma_bands_below(sides, first, rows - 1, vertices);
        let start = first + (rows - 1) * sides;
        let at = |t: int| band_triangle(sides, start, t);
        assert(start + 2 * sides == first + (rows + 1) * sides) by (nonlinear_arith)
            requires
                start == first + (rows - 1) * sides,
        ;
        assert(0 <= start) by (nonlinear_arith)
            requires
                start == first + (rows - 1) * sides,
                0 <= first,
                0 <= sides,
                1 <= rows,
        ;
        assert forall|t: int| 0 <= t < 2 * sides implies (#[trigger] at(t)).inside(vertices) by {}
        lemma_index_list_below(2 * sides, at, vertices);
        lemma_below_joins(
            bands(sides, first, rows - 1),
            index_list(2 * sides, at),
            vertices,
        );
    }
}

/// Adds the bands between `rows + 1` rings of `sides` vertices.
fn push_bands(indices: &mut Vec<u32>, sides: u32, first: u32, rows: u32)
    requires
        first + (rows + 1) * sides <= u32::MAX,
    ensures
        final(indices)@ == old(indices)@ + bands(sides as int, first as int, rows as int),
{
    let ghost base = indices@;
    assert(indices@ =~= base + bands(sides as int, first as int, 0));
    let mut j: u32 = 0;
    let mut upper: u32 = first;
    while j < rows
        invariant
            j <= rows,
            first + (rows + 1) * sides <= u32::MAX,
            upper == first + j * sides,
            indices@ == base + bands(sides as int, first as int, j as int),
        decreases rows - j,
    {
        assert(first + (j + 2) * sides <= first + (rows + 1) * sides) by (nonlinear_arith)
            requires
                j < rows,
                0 <= sides,
        ;
        assert((j + 2) * sides == j * sides + 2 * sides) by (nonlinear_arith);
        assert((j + 1) * sides == j * sides + sides) by (nonlinear_arith);
        let lower: u32 = upper + sides;
        let ghost at = |t: int| band_triangle(sides as int, first + j * sides, t);
        let ghost before = indices@;
        proof {
            lemma_index_list_grows(before, 0, at);
        }
        let mut i: u32 = 0;
        while i < sides
            invariant
                i <= sides,
                upper == first + j * sides,
                lower == upper + sides,
                lower + sides <= u32::MAX,
                at == (|t: int| band_triangle(sides as int, first + j * sides, t)),
                indices@ == before + index_list(2 * i, at),
            decreases sides - i,
        {
            let around = next(i, sides);
            proof {
                lemma_index_list_grows(before, 2 * i, at);
                lemma_index_list_grows(before, 2 * i + 1, at);
            }
            push_triangle(indices, upper + i, upper + around, lower + around);
            push_triangle(indices, lower + around, lower + i, upper + i);
            i = i + 1;
        }
        j = j + 1;
        upper = lower;
        assert(indices@ =~= base + bands(sides as int, first as int, j as int));
    }
}

/// Generates the index lists of the basic meshes. Each list goes with
/// the vertices that the mesh of the same name is made of.
#[derive(Debug)]
pub struct Primitives;

/// Vertices of a flat ring: one on each circle for each side.
pub open spec fn torus_2d_vertices(sides: int) -> int {
    2 * sides
}

/// The index list of a flat ring: a strip between the outer and the
/// inner circle, and two triangles that close it.
pub open spec fn torus_2d_indices(sides: int) -> Seq<u32> {
    let n = torus_2d_vertices(sides);
    index_list(n - 2, |t: int| strip_triangle(t)) + tri(n - 1, n - 2, 0).indices() + tri(
        n - 1,
        0,
        1,
    ).indices()
}

/// The triangle at place `t` of the two caps of a cylinder: fans around
/// the two centres, which are vertices 0 and 1, the caps taking turns.
pub open spec fn cap_triangle(t: int) -> Triangle {
    if t % 2 == 0 {
        tri(t + 2, 0, t + 4)
    } else {
        tri(t + 2, t + 4, 1)
    }
}

/// Vertices of a cylinder: a centre and a rim for each cap, then the
/// wall, whose first column comes twice.
pub open spec fn cylinder_vertices(sides: int) -> int {
    4 * sides + 4
}

/// The index list of a cylinder: the caps, two triangles that close
/// them, and the wall as a strip.
pub open spec fn cylinder_indices(sides: int) -> Seq<u32> {
    let n = 2 * sides + 2;
    let fans = if sides >= 1 {
        n - 4
    } else {
        0
    };
    index_list(fans, |t: int| cap_triangle(t)) + tri(n - 2, 0, 2).indices() + tri(
        n - 1,
        3,
        1,
    ).indices() + index_list(2 * sides, |t: int| strip_triangle(n + t))
}

/// The triangle at place `t` of the two rims of a tube: the upper and the
/// lower rim are strips between the outer and the inner circle, and they
/// take turns two triangles at a time.
pub open spec fn rim_triangle(t: int) -> Triangle {
    let i = t - t % 2;
    if i % 4 == 0 {
        if t % 2 == 0 {
            tri(i, i + 2, i + 4)
        } else {
            tri(i + 3, i + 1, i + 5)
        }
    } else {
        if t % 2 == 0 {
            tri(i + 2, i, i + 4)
        } else {
            tri(i + 1, i + 3, i + 5)
        }
    }
}

/// The triangle at place `t` of the two walls of a tube, whose vertices
/// begin at vertex `first`: the outer and the inner wall take turns two
/// triangles at a time.
pub open spec fn wall_triangle(first: int, t: int) -> Triangle {
    let i = first + t - t % 2;
    if i % 4 == 0 {
        if t % 2 == 0 {
            tri(i + 2, i, i + 4)
        } else {
            tri(i + 1, i + 3, i + 5)
        }
    } else {
        if t % 2 == 0 {
            tri(i, i + 2, i + 4)
        } else {
            tri(i + 3, i + 1, i + 5)
        }
    }
}

/// Vertices of a tube: four for each side on the rims, then four for
/// each column of the walls, whose first column comes twice.
pub open spec fn tube_vertices(sides: int) -> int {
    8 * sides + 4
}

/// The index list of a tube: the rims, four triangles that close them,
/// and the walls.
pub open spec fn tube_indices(sides: int) -> Seq<u32> {
    let n = 4 * sides;
    index_list(n - 4, |t: int| rim_triangle(t)) + tri(n - 4, n - 2, 0).indices() + tri(
        0,
        n - 2,
        2,
    ).indices() + tri(n - 1, n - 3, 1).indices() + tri(n - 1, 1, 3).indices() + index_list(
        n,
        |t: int| wall_triangle(n, t),
    )
}

/// Vertices of a cone: the tip, the rim of the side, whose first vertex
/// comes twice, the centre of the bottom and the rim of the bottom.
pub open spec fn cone_vertices(sides: int) -> int {
    2 * sides + 3
}

/// The index list of a cone: the side as a fan around the tip, the bottom
/// as a fan around its centre, and one triangle that closes the bottom.
/// The last triangle of the bottom's fan names the vertex behind the last
/// vertex of the mesh.
pub open spec fn cone_indices(sides: int) -> Seq<u32> {
    let centre = sides + 2;
    let last = cone_vertices(sides) - 1;
    index_list(sides, |t: int| tri(t + 2, t + 1, 0)) + index_list(
        sides,
        |t: int| tri(centre + 1 + t, centre + 2 + t, centre),
    ) + tri(last, centre + 1, centre).indices()
}

/// Vertices of a sphere: the two poles, and a ring for each cut between
/// two slices.
pub open spec fn sphere_vertices(sides: int, slices: int) -> int {
    (slices - 1) * sides + 2
}

/// The triangle at place `t` of the two caps of a sphere: fans around the
/// poles, the caps taking turns.
pub open spec fn pole_triangle(sides: int, slices: int, t: int) -> Triangle {
    let i = t / 2;
    let low = sides * (slices - 2) + 1;
    if t % 2 == 0 {
        tri(0, next_around(i, sides) + 1, i + 1)
    } else {
        tri(sphere_vertices(sides, slices) - 1, i + low, next_around(i, sides) + low)
    }
}

/// The index list of a sphere: the two caps, then the bands between the
/// rings from top to bottom.
pub open spec fn sphere_indices(sides: int, slices: int) -> Seq<u32> {
    index_list(2 * sides, |t: int| pole_triangle(sides, slices, t)) + bands(sides, 1, slices - 2)
}

/// Vertices of a hemisphere: the pole, a ring for each slice, the rim of
/// the bottom and the centre of the bottom.
pub open spec fn hemisphere_vertices(sides: int, slices: int) -> int {
    slices * sides + sides + 2
}

/// The index list of a hemisphere: the cap around the pole, the bands
/// between the rings, and the bottom as a fan around its centre with one
/// triangle that closes it.
pub open spec fn hemisphere_indices(sides: int, slices: int) -> Seq<u32> {
    let rim = slices * sides + 1;
    let centre = rim + sides;
    index_list(sides, |t: int| tri(0, next_around(t, sides) + 1, t + 1)) + bands(
        sides,
        1,
        slices - 1,
    ) + index_list(sides - 1, |t: int| tri(centre, rim + t, rim + t + 1)) + tri(
        centre,
        centre - 1,
        rim,
    ).indices()
}

/// The triangle at place `t` of a cube with four vertices of its own for
/// each face.
pub open spec fn cube_triangle(t: int) -> Triangle {
    let first = 4 * (t / 2);
    if t % 2 == 0 {
        tri(first + 1, first, first + 2)
    } else {
        tri(first + 3, first + 2, first)
    }
}

impl Primitives {
    /// A rectangle of four vertices, as two triangles that share a
    /// diagonal.
    pub fn rect_indexed() -> (m: RMeshIndices)
        ensures
            m.vertex_count == 4,
            m.indices@ == seq![0u32, 1, 2, 2, 3, 0],
            m.in_range(),
    {
        let mut indices: Vec<u32> = Vec::new();
        push_triangle(&mut indices, 0, 1, 2);
        push_triangle(&mut indices, 2, 3, 0);
        assert(indices@ =~= seq![0u32, 1, 2, 2, 3, 0]);
        RMeshIndices { vertex_count: 4, indices }
    }

    /// A cube of twenty-four vertices, two triangles for each face.
    pub fn cube_indexed() -> (m: RMeshIndices)
        ensures
            m.vertex_count == 24,
            m.indices@ == index_list(12, |t: int| cube_triangle(t)),
            m.in_range(),
    {
        let ghost at = |t: int| cube_triangle(t);
        let mut indices: Vec<u32> = Vec::new();
        proof {
            lemma_index_list_grows(Seq::empty(), 0, at);
        }
        let mut face: u32 = 0;
        while face < 6
            invariant
                face <= 6,
                at == (|t: int| cube_triangle(t)),
                indices@ == Seq::<u32>::empty() + index_list(2 * face, at),
            decreases 6 - face,
        {
            let first = 4 * face;
            proof {
                lemma_index_list_grows(Seq::empty(), 2 * face, at);
                lemma_index_list_grows(Seq::empty(), 2 * face + 1, at);
            }
            push_triangle(&mut indices, first + 1, first, first + 2);
            push_triangle(&mut indices, first + 3, first + 2, first);
            face = face + 1;
        }
        proof {
            assert(indices@ =~= index_list(12, at));
            assert forall|t: int| 0 <= t < 12 implies (#[trigger] at(t)).inside(24) by {}
            lemma_index_list_below(12, at, 24);
        }
        RMeshIndices { vertex_count: 24, indices }
    }

    /// A flat ring between two circles.
    pub fn torus_2d(sides: u32) -> (m: RMeshIndices)
        requires
            1 <= sides,
            torus_2d_vertices(sides as int) <= u32::MAX,
        ensures
            m.vertex_count == torus_2d_vertices(sides as int),
            m.indices@ == torus_2d_indices(sides as int),
            m.in_range(),
    {
        let ghost at = |t: int| strip_triangle(t);
        let n: u32 = 2 * sides;
        let mut indices: Vec<u32> = Vec::new();
        proof {
            lemma_index_list_grows(Seq::empty(), 0, at);
        }
        let mut i: u32 = 0;
        while i < n - 2
            invariant
                i <= n - 2,
                n >= 2,
                at == (|t: int| strip_triangle(t)),
                indices@ == Seq::<u32>::empty() + index_list(i as int, at),
            decreases n - 2 - i,
        {
            proof {
                lemma_index_list_grows(Seq::empty(), i as int, at);
            }
            if i % 2 == 0 {
                push_triangle(&mut indices, i + 1, i, i + 2);
            } else {
                push_triangle(&mut indices, i, i + 1, i + 2);
            }
            i = i + 1;
        }
        let ghost strip = indices@;
        push_triangle(&mut indices, n - 1, n - 2, 0);
        push_triangle(&mut indices, n - 1, 0, 1);
        proof {
            assert(strip =~= index_list(n - 2, at));
            assert forall|t: int| 0 <= t < n - 2 implies (#[trigger] at(t)).inside(n as int) by {}
            lemma_index_list_below(n - 2, at, n as int);
            lemma_below_joins(strip, tri(n - 1, n - 2, 0).indices(), n as int);
            lemma_below_joins(
                strip + tri(n - 1, n - 2, 0).indices(),
                tri(n - 1, 0, 1).indices(),
                n as int,
            );
        }
        RMeshIndices { vertex_count: n, indices }
    }
}

impl Primitives {
    /// A cylinder with a cap at each end.
    pub fn cylinder(sides: u32) -> (m: RMeshIndices)
        requires
            cylinder_vertices(sides as int) <= u32::MAX,
        ensures
            m.vertex_count == cylinder_vertices(sides as int),
            m.indices@ == cylinder_indices(sides as int),
            m.in_range(),
    {
        let ghost caps = |t: int| cap_triangle(t);
        let n: u32 = 2 * sides + 2;
        let total: u32 = 4 * sides + 4;
        let fans: u32 = if sides >= 1 {
            n - 4
        } else {
            0
        };
        let mut indices: Vec<u32> = Vec::new();
        proof {
            lemma_index_list_grows(Seq::empty(), 0, caps);
        }
        let mut t: u32 = 0;
        while t < fans
            invariant
                t <= fans,
                fans + 4 <= n || fans == 0,
                n <= u32::MAX,
                caps == (|t: int| cap_triangle(t)),
                indices@ == Seq::<u32>::empty() + index_list(t as int, caps),
            decreases fans - t,
        {
            proof {
                lemma_index_list_grows(Seq::empty(), t as int, caps);
            }
            if t % 2 == 0 {
                push_triangle(&mut indices, t + 2, 0, t + 4);
            } else {
                push_triangle(&mut indices, t + 2, t + 4, 1);
            }
            t = t + 1;
        }
        push_triangle(&mut indices, n - 2, 0, 2);
        push_triangle(&mut indices, n - 1, 3, 1);
        let ghost closed = indices@;
        let ghost wall = |t: int| strip_triangle(n + t);
        proof {
            lemma_index_list_grows(closed, 0, wall);
        }
        let mut t: u32 = 0;
        while t < 2 * sides
            invariant
                t <= 2 * sides,
                n == 2 * sides + 2,
                4 * sides + 4 <= u32::MAX,
                wall == (|t: int| strip_triangle(n + t)),
                indices@ == closed + index_list(t as int, wall),
            decreases 2 * sides - t,
        {
            let i = n + t;
            proof {
                lemma_index_list_grows(closed, t as int, wall);
            }
            if i % 2 == 0 {
                push_triangle(&mut indices, i + 1, i, i + 2);
            } else {
                push_triangle(&mut indices, i, i + 1, i + 2);
            }
            t = t + 1;
        }
        proof {
            let count = total as int;
            assert(indices@ =~= cylinder_indices(sides as int));
            assert forall|t: int| 0 <= t < fans implies (#[trigger] caps(t)).inside(count) by {}
            lemma_index_list_below(fans as int, caps, count);
            assert forall|t: int| 0 <= t < 2 * sides implies (#[trigger] wall(t)).inside(count) by {}
            lemma_index_list_below(2 * sides, wall, count);
            lemma_below_joins(index_list(fans as int, caps), tri(n - 2, 0, 2).indices(), count);
            lemma_below_joins(
                index_list(fans as int, caps) + tri(n - 2, 0, 2).indices(),
                tri(n - 1, 3, 1).indices(),
                count,
            );
            lemma_below_joins(
                index_list(fans as int, caps) + tri(n - 2, 0, 2).indices() + tri(
                    n - 1,
                    3,
                    1,
                ).indices(),
                index_list(2 * sides, wall),
                count,
            );
        }
        RMeshIndices { vertex_count: total, indices }
    }

    /// A tube: a cylinder with a hole along its axis.
    pub fn tube(sides: u32) -> (m: RMeshIndices)
        requires
            2 <= sides,
            tube_vertices(sides as int) <= u32::MAX,
        ensures
            m.vertex_count == tube_vertices(sides as int),
            m.indices@ == tube_indices(sides as int),
            m.in_range(),
    {
        let ghost rims = |t: int| rim_triangle(t);
        let n: u32 = 4 * sides;
        let total: u32 = 8 * sides + 4;
        let mut indices: Vec<u32> = Vec::new();
        proof {
            lemma_index_list_grows(Seq::empty(), 0, rims);
        }
        let mut i: u32 = 0;
        while i < n - 5
            invariant
                i <= n - 4,
                i % 2 == 0,
                n == 4 * sides,
                n >= 8,
                rims == (|t: int| rim_triangle(t)),
                indices@ == Seq::<u32>::empty() + index_list(i as int, rims),
            decreases n - i,
        {
            proof {
                lemma_index_list_grows(Seq::empty(), i as int, rims);
                lemma_index_list_grows(Seq::empty(), i + 1, rims);
            }
            if i % 4 == 0 {
                push_triangle(&mut indices, i, i + 2, i + 4);
                push_triangle(&mut indices, i + 3, i + 1, i + 5);
            } else {
                push_triangle(&mut indices, i + 2, i, i + 4);
                push_triangle(&mut indices, i + 1, i + 3, i + 5);
            }
            i = i + 2;
        }
        assert(i == n - 4);
        push_triangle(&mut indices, n - 4, n - 2, 0);
        push_triangle(&mut indices, 0, n - 2, 2);
        push_triangle(&mut indices, n - 1, n - 3, 1);
        push_triangle(&mut indices, n - 1, 1, 3);
        let ghost closed = indices@;
        let ghost walls = |t: int| wall_triangle(n as int, t);
        proof {
            lemma_index_list_grows(closed, 0, walls);
        }
        let mut t: u32 = 0;
        while t < n
            invariant
                t <= n,
                t % 2 == 0,
                n == 4 * sides,
                8 * sides + 4 <= u32::MAX,
                walls == (|t: int| wall_triangle(n as int, t)),
                indices@ == closed + index_list(t as int, walls),
            decreases n - t,
        {
            let i = n + t;
            proof {
                lemma_index_list_grows(closed, t as int, walls);
                lemma_index_list_grows(closed, t + 1, walls);
            }
            if i % 4 == 0 {
                push_triangle(&mut indices, i + 2, i, i + 4);
                push_triangle(&mut indices, i + 1, i + 3, i + 5);
            } else {
                push_triangle(&mut indices, i, i + 2, i + 4);
                push_triangle(&mut indices, i + 3, i + 1, i + 5);
            }
            t = t + 2;
        }
        proof {
            let count = total as int;
            assert(indices@ =~= tube_indices(sides as int));
            assert forall|t: int| 0 <= t < n - 4 implies (#[trigger] rims(t)).inside(count) by {}
            lemma_index_list_below(n - 4, rims, count);
            assert forall|t: int| 0 <= t < n implies (#[trigger] walls(t)).inside(count) by {}
            lemma_index_list_below(n as int, walls, count);
            let a = index_list(n - 4, rims);
            let b = a + tri(n - 4, n - 2, 0).indices();
            let c = b + tri(0, n - 2, 2).indices();
            let d = c + tri(n - 1, n - 3, 1).indices();
            let e = d + tri(n - 1, 1, 3).indices();
            lemma_below_joins(a, tri(n - 4, n - 2, 0).indices(), count);
            lemma_below_joins(b, tri(0, n - 2, 2).indices(), count);
            lemma_below_joins(c, tri(n - 1, n - 3, 1).indices(), count);
            lemma_below_joins(d, tri(n - 1, 1, 3).indices(), count);
            lemma_below_joins(e, index_list(n as int, walls), count);
        }
        RMeshIndices { vertex_count: total, indices }
    }

    /// A cone with a bottom. One index of the bottom names the vertex
    /// behind the last; every other index names a vertex of the mesh.
    pub fn cone(sides: u32) -> (m: RMeshIndices)
        requires
            cone_vertices(sides as int) <= u32::MAX,
        ensures
            m.vertex_count == cone_vertices(sides as int),
            m.indices@ == cone_indices(sides as int),
            all_below(m.indices@, m.vertex_count + 1),
    {
        let centre: u32 = sides + 2;
        let total: u32 = 2 * sides + 3;
        let ghost side = |t: int| tri(t + 2, t + 1, 0);
        let ghost bottom = |t: int| tri(centre + 1 + t, centre + 2 + t, centre as int);
        let mut indices: Vec<u32> = Vec::new();
        proof {
            lemma_index_list_grows(Seq::empty(), 0, side);
        }
        let mut t: u32 = 0;
        while t < sides
            invariant
                t <= sides,
                2 * sides + 3 <= u32::MAX,
                side == (|t: int| tri(t + 2, t + 1, 0)),
                indices@ == Seq::<u32>::empty() + index_list(t as int, side),
            decreases sides - t,
        {
            proof {
                lemma_index_list_grows(Seq::empty(), t as int, side);
            }
            push_triangle(&mut indices, t + 2, t + 1, 0);
            t = t + 1;
        }
        let ghost sided = indices@;
        proof {
            lemma_index_list_grows(sided, 0, bottom);
        }
        let mut t: u32 = 0;
        while t < sides
            invariant
                t <= sides,
                centre == sides + 2,
                2 * sides + 3 <= u32::MAX,
                bottom == (|t: int| tri(centre + 1 + t, centre + 2 + t, centre as int)),
                indices@ == sided + index_list(t as int, bottom),
            decreases sides - t,
        {
            proof {
                lemma_index_list_grows(sided, t as int, bottom);
            }
            push_triangle(&mut indices, centre + 1 + t, centre + 2 + t, centre);
            t = t + 1;
        }
        push_triangle(&mut indices, total - 1, centre + 1, centre);
        proof {
            let count = total + 1;
            assert(indices@ =~= cone_indices(sides as int));
            assert forall|t: int| 0 <= t < sides implies (#[trigger] side(t)).inside(count) by {}
            lemma_index_list_below(sides as int, side, count);
            assert forall|t: int| 0 <= t < sides implies (#[trigger] bottom(t)).inside(count) by {}
            lemma_index_list_below(sides as int, bottom, count);
            lemma_below_joins(
                index_list(sides as int, side),
                index_list(sides as int, bottom),
                count,
            );
            lemma_below_joins(
                index_list(sides as int, side) + index_list(sides as int, bottom),
                tri(total - 1, centre + 1, centre as int).indices(),
                count,
            );
        }
        RMeshIndices { vertex_count: total, indices }
    }

    /// A sphere of `slices` slices from pole to pole.
    pub fn sphere(sides: u32, slices: u32) -> (m: RMeshIndices)
        requires
            2 <= slices,
            sphere_vertices(sides as int, slices as int) <= u32::MAX,
        ensures
            m.vertex_count == sphere_vertices(sides as int, slices as int),
            m.indices@ == sphere_indices(sides as int, slices as int),
            m.in_range(),
    {
        assert((slices - 2) * sides + sides == (slices - 1) * sides) by (nonlinear_arith);
        assert(0 <= (slices - 2) * sides) by (nonlinear_arith)
            requires
                2 <= slices,
                0 <= sides,
        ;
        assert(sides * (slices - 2) == (slices - 2) * sides) by (nonlinear_arith);
        let low: u32 = sides * (slices - 2) + 1;
        let total: u32 = low + sides + 1;
        let ghost poles = |t: int| pole_triangle(sides as int, slices as int, t);
        let mut indices: Vec<u32> = Vec::new();
        proof {
            lemma_index_list_grows(Seq::empty(), 0, poles);
        }
        let mut i: u32 = 0;
        while i < sides
            invariant
                i <= sides,
                low == sides * (slices - 2) + 1,
                total == low + sides + 1,
                total == sphere_vertices(sides as int, slices as int),
                poles == (|t: int| pole_triangle(sides as int, slices as int, t)),
                indices@ == Seq::<u32>::empty() + index_list(2 * i, poles),
            decreases sides - i,
        {
            let around = next(i, sides);
            proof {
                lemma_index_list_grows(Seq::empty(), 2 * i, poles);
                lemma_index_list_grows(Seq::empty(), 2 * i + 1, poles);
            }
            push_triangle(&mut indices, 0, around + 1, i + 1);
            push_triangle(&mut indices, total - 1, i + low, around + low);
            i = i + 1;
        }
        assert(1 + (slices - 2 + 1) * sides <= u32::MAX) by (nonlinear_arith)
            requires
                (slices - 1) * sides + 2 <= u32::MAX,
        ;
        push_bands(&mut indices, sides, 1, slices - 2);
        proof {
            let count = total as int;
            assert(indices@ =~= sphere_indices(sides as int, slices as int));
            assert forall|t: int| 0 <= t < 2 * sides implies (#[trigger] poles(t)).inside(
                count,
            ) by {}
            lemma_index_list_below(2 * sides, poles, count);
            lemma_bands_below(sides as int, 1, slices - 2, count);
            lemma_below_joins(
                index_list(2 * sides, poles),
                bands(sides as int, 1, slices - 2),
                count,
            );
        }
        RMeshIndices { vertex_count: total, indices }
    }

    /// The upper half of a sphere, with a flat bottom.
    pub fn hemisphere(sides: u32, slices: u32) -> (m: RMeshIndices)
        requires
            1 <= sides,
            1 <= slices,
            hemisphere_vertices(sides as int, slices as int) <= u32::MAX,
        ensures
            m.vertex_count == hemisphere_vertices(sides as int, slices as int),
            m.indices@ == hemisphere_indices(sides as int, slices as int),
            m.in_range(),
    {
        assert(0 <= slices * sides) by (nonlinear_arith)
            requires
                0 <= slices,
                0 <= sides,
        ;
        assert((slices - 1 + 1) * sides == slices * sides) by (nonlinear_arith);
        let rim: u32 = slices * sides + 1;
        let centre: u32 = rim + sides;
        let total: u32 = centre + 1;
        let ghost cap = |t: int| tri(0, next_around(t, sides as int) + 1, t + 1);
        let ghost bottom = |t: int| tri(centre as int, rim + t, rim + t + 1);
        let mut indices: Vec<u32> = Vec::new();
        proof {
            lemma_index_list_grows(Seq::empty(), 0, cap);
        }
        let mut i: u32 = 0;
        while i < sides
            invariant
                i <= sides,
                sides < u32::MAX,
                cap == (|t: int| tri(0, next_around(t, sides as int) + 1, t + 1)),
                indices@ == Seq::<u32>::empty() + index_list(i as int, cap),
            decreases sides - i,
        {
            let around = next(i, sides);
            proof {
                lemma_index_list_grows(Seq::empty(), i as int, cap);
            }
            push_triangle(&mut indices, 0, around + 1, i + 1);
            i = i + 1;
        }
        push_bands(&mut indices, sides, 1, slices - 1);
        let ghost banded = indices@;
        proof {
            lemma_index_list_grows(banded, 0, bottom);
        }
        let mut i: u32 = 0;
        while i < sides - 1
            invariant
                i <= sides - 1,
                1 <= sides,
                centre == rim + sides,
                centre < u32::MAX,
                bottom == (|t: int| tri(centre as int, rim + t, rim + t + 1)),
                indices@ == banded + index_list(i as int, bottom),
            decreases sides - 1 - i,
        {
            proof {
                lemma_index_list_grows(banded, i as int, bottom);
            }
            push_triangle(&mut indices, centre, rim + i, rim + i + 1);
            i = i + 1;
        }
        push_triangle(&mut indices, centre, centre - 1, rim);
        proof {
            let count = total as int;
            assert(indices@ =~= hemisphere_indices(sides as int, slices as int));
            assert forall|t: int| 0 <= t < sides implies (#[trigger] cap(t)).inside(count) by {}
            lemma_index_list_below(sides as int, cap, count);
            lemma_bands_below(sides as int, 1, slices - 1, count);
            assert forall|t: int| 0 <= t < sides - 1 implies (#[trigger] bottom(t)).inside(
                count,
            ) by {}
            lemma_index_list_below(sides - 1, bottom, count);
            let a = index_list(sides as int, cap);
            let b = a + bands(sides as int, 1, slices - 1);
            let c = b + index_list(sides - 1, bottom);
            lemma_below_joins(a, bands(sides as int, 1, slices - 1), count);
            lemma_below_joins(b, index_list(sides - 1, bottom), count);
            lemma_below_joins(c, tri(centre as int, centre - 1, rim as int).indices(), count);
        }
        RMeshIndices { vertex_count: total, indices }
    }
}

} // verus!
