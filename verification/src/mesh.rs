//! Tile meshes on an integer lattice, with verified vertex welding.
//!
//! A tile mesh is an ordered vertex list and a triangle index list. All
//! construction goes through [`TileMesh::add_triangle`], which welds
//! vertices by their lattice coordinate: each distinct `(x, z)` maps to
//! exactly one vertex index. Welding is what prevents seam cracks between
//! triangles, and it gives the central vertex-count property: the mesh
//! holds exactly one vertex per distinct lattice coordinate its triangles
//! touch.

use vstd::prelude::*;

verus! {

/// A triangle by its three lattice corners, in emission order.
pub type Tri = ((int, int), (int, int), (int, int));

/// Largest accepted magnitude for a lattice coordinate handed to the mesh
/// builder. A machine cap, far above any coordinate a configuration under
/// `MAX_HALF_WIDTH` produces.
pub const MAX_COORD_ABS: i64 = 1073741824;

/// One mesh vertex: a point of the integer lattice. The vertical
/// component is supplied later by the heightmap, so a vertex is flat.
#[derive(Clone, Copy, PartialEq, Eq, Structural, Debug)]
pub struct LatticePoint {
    /// Lattice x coordinate.
    pub x: i64,
    /// Lattice z coordinate.
    pub z: i64,
}

/// Cached extents of a tile mesh's vertices, computed once.
#[derive(Clone, Copy, PartialEq, Eq, Structural, Debug)]
pub struct TileBounds {
    /// Smallest vertex x coordinate.
    pub min_x: i64,
    /// Largest vertex x coordinate.
    pub max_x: i64,
    /// Smallest vertex z coordinate.
    pub min_z: i64,
    /// Largest vertex z coordinate.
    pub max_z: i64,
}

/// An ordered vertex list and a triangle index list; one of the five
/// canonical tiles once built. Built once per clipmap configuration and
/// then shared read-only by every placement referencing it.
pub struct TileMesh {
    /// Deduplicated vertices, in order of first touch.
    pub verts: Vec<LatticePoint>,
    /// Triangle corners, three consecutive indices per triangle.
    pub indices: Vec<u32>,
}

/// Does the triangle have `p` as one of its corners?
pub open spec fn tri_corner(t: Tri, p: (int, int)) -> bool {
    t.0 == p || t.1 == p || t.2 == p
}

/// Does any triangle of the sequence touch the lattice point `p`?
pub open spec fn tris_touch(ts: Seq<Tri>, p: (int, int)) -> bool {
    exists|i: int| 0 <= i < ts.len() && tri_corner(ts[i], p)
}

/// Twice the area of a triangle: the magnitude of the cross product of
/// two edges. A unit half-cell has `tri_area2 == 1`; a degenerate
/// (collinear) triangle has `tri_area2 == 0`.
pub open spec fn tri_area2(t: Tri) -> int {
    let cross = (t.1.0 - t.0.0) * (t.2.1 - t.0.1) - (t.1.1 - t.0.1) * (t.2.0 - t.0.0);
    if cross < 0 {
        -cross
    } else {
        cross
    }
}

/// Sum of `tri_area2` over a triangle sequence.
pub open spec fn area2_sum(ts: Seq<Tri>) -> int
    decreases ts.len(),
{
    if ts.len() == 0 {
        0
    } else {
        area2_sum(ts.drop_last()) + tri_area2(ts.last())
    }
}

/// Appending one triangle adds its area to the sum.
pub proof fn lemma_area2_sum_push(ts: Seq<Tri>, t: Tri)
    ensures
        area2_sum(ts.push(t)) == area2_sum(ts) + tri_area2(t),
{
    assert(ts.push(t).drop_last() =~= ts);
    assert(ts.push(t).last() == t);
}

/// Appending one triangle extends the touched point set by exactly the
/// triangle's corners.
pub proof fn lemma_tris_touch_push(ts: Seq<Tri>, t: Tri, p: (int, int))
    ensures
        tris_touch(ts.push(t), p) <==> (tris_touch(ts, p) || tri_corner(t, p)),
{
    if tris_touch(ts.push(t), p) {
        let i = choose|i: int| 0 <= i < ts.push(t).len() && tri_corner(ts.push(t)[i], p);
        if i < ts.len() {
            assert(tri_corner(ts[i], p));
            assert(tris_touch(ts, p));
        } else {
            assert(ts.push(t)[i] == t);
        }
    }
    if tris_touch(ts, p) {
        let i = choose|i: int| 0 <= i < ts.len() && tri_corner(ts[i], p);
        assert(tri_corner(ts.push(t)[i], p));
        assert(tris_touch(ts.push(t), p));
    }
    if tri_corner(t, p) {
        assert(tri_corner(ts.push(t)[ts.len() as int], p));
        assert(tris_touch(ts.push(t), p));
    }
}

/// The vertex-count law of welding: a welded mesh holds exactly as many
/// vertices as there are distinct lattice coordinates its triangles
/// touch — no duplicates, no unused vertices.
pub proof fn lemma_vertex_count_is_touched_count(m: TileMesh)
    requires
        m.wf(),
        m.vertices_are_touched(),
    ensures
        m.verts@.len() == Set::new(|p: (int, int)| tris_touch(m.tris(), p)).len(),
{
    let cs = Seq::new(m.verts@.len(), |i: int| m.pt(i));
    assert(cs.no_duplicates()) by {
        assert forall|i: int, j: int|
            0 <= i < cs.len() && 0 <= j < cs.len() && i != j implies cs[i] != cs[j] by {
            if i < j {
                assert(m.pt(i) != m.pt(j));
            } else {
                assert(m.pt(j) != m.pt(i));
            }
        }
    }
    cs.unique_seq_to_set();
    assert(cs.to_set() =~= Set::new(|p: (int, int)| tris_touch(m.tris(), p))) by {
        assert forall|p: (int, int)|
            cs.to_set().contains(p) <==> tris_touch(m.tris(), p) by {
            if cs.to_set().contains(p) {
                let i = choose|i: int| 0 <= i < cs.len() && cs[i] == p;
                assert(m.pt(i) == p);
                assert(m.covers(p));
            }
            if tris_touch(m.tris(), p) {
                assert(m.covers(p));
                let i = choose|i: int| 0 <= i < m.verts@.len() && m.pt(i) == p;
                assert(cs[i] == p);
                assert(cs.contains(p));
            }
        }
    }
}

/// The box `b` is the tight bounding box of the mesh's vertices: every
/// vertex lies inside it and, unless the mesh is empty, every face of it
/// is attained.
pub open spec fn bounds_valid(m: TileMesh, b: TileBounds) -> bool {
    &&& forall|i: int|
        0 <= i < m.verts@.len() ==> b.min_x <= #[trigger] m.verts@[i].x <= b.max_x && b.min_z
            <= m.verts@[i].z <= b.max_z
    &&& m.verts@.len() > 0 ==> exists|i: int|
        0 <= i < m.verts@.len() && #[trigger] m.verts@[i].x == b.min_x
    &&& m.verts@.len() > 0 ==> exists|i: int|
        0 <= i < m.verts@.len() && #[trigger] m.verts@[i].x == b.max_x
    &&& m.verts@.len() > 0 ==> exists|i: int|
        0 <= i < m.verts@.len() && #[trigger] m.verts@[i].z == b.min_z
    &&& m.verts@.len() > 0 ==> exists|i: int|
        0 <= i < m.verts@.len() && #[trigger] m.verts@[i].z == b.max_z
}

/// Two meshes with the same vertex list cover the same lattice points.
pub proof fn lemma_covers_agree(a: TileMesh, b: TileMesh)
    requires
        a.verts@ == b.verts@,
    ensures
        forall|p: (int, int)| #![trigger a.covers(p)] #![trigger b.covers(p)]
            a.covers(p) <==> b.covers(p),
{
    assert forall|p: (int, int)| #![trigger a.covers(p)] #![trigger b.covers(p)]
        a.covers(p) <==> b.covers(p) by {
        if a.covers(p) {
            let i = choose|i: int| 0 <= i < a.verts@.len() && a.pt(i) == p;
            assert(b.pt(i) == p);
            assert(b.covers(p));
        }
        if b.covers(p) {
            let i = choose|i: int| 0 <= i < b.verts@.len() && b.pt(i) == p;
            assert(a.pt(i) == p);
            assert(a.covers(p));
        }
    }
}

impl TileMesh {
    /// The lattice coordinate of vertex `i`.
    pub open spec fn pt(self, i: int) -> (int, int) {
        (self.verts@[i].x as int, self.verts@[i].z as int)
    }

    /// No two vertices share a lattice coordinate.
    pub open spec fn welded(self) -> bool {
        forall|i: int, j: int|
            0 <= i < j < self.verts@.len() ==> self.pt(i) != self.pt(j)
    }

    /// Every index refers to an existing vertex.
    pub open spec fn indices_valid(self) -> bool {
        forall|k: int|
            0 <= k < self.indices@.len() ==> (self.indices@[k] as int) < self.verts@.len()
    }

    /// Structural well-formedness: welded vertices, valid indices, whole
    /// triangles.
    pub open spec fn wf(self) -> bool {
        &&& self.welded()
        &&& self.indices_valid()
        &&& self.indices@.len() % 3 == 0
    }

    /// Does some vertex sit on the lattice point `p`?
    pub open spec fn covers(self, p: (int, int)) -> bool {
        exists|i: int| 0 <= i < self.verts@.len() && self.pt(i) == p
    }

    /// Number of whole triangles.
    pub open spec fn tri_count(self) -> int {
        self.indices@.len() as int / 3
    }

    /// Triangle `t` by its corner coordinates.
    pub open spec fn tri(self, t: int) -> Tri {
        (
            self.pt(self.indices@[3 * t] as int),
            self.pt(self.indices@[3 * t + 1] as int),
            self.pt(self.indices@[3 * t + 2] as int),
        )
    }

    /// All triangles, in emission order.
    pub open spec fn tris(self) -> Seq<Tri> {
        Seq::new(self.tri_count() as nat, |t: int| self.tri(t))
    }

    /// The welding guarantee in full: the vertex list holds exactly the
    /// distinct lattice coordinates the triangles touch, each once.
    pub open spec fn vertices_are_touched(self) -> bool {
        forall|p: (int, int)| #![trigger self.covers(p)] self.covers(p) <==> tris_touch(self.tris(), p)
    }

    /// An empty mesh, the start of every build.
    pub fn new() -> (m: TileMesh)
        ensures
            m.wf(),
            m.vertices_are_touched(),
            m.verts@ == Seq::<LatticePoint>::empty(),
            m.indices@ == Seq::<u32>::empty(),
            m.tris() == Seq::<Tri>::empty(),
    {
        let m = TileMesh { verts: Vec::new(), indices: Vec::new() };
        proof {
            assert(m.tris() =~= Seq::<Tri>::empty());
        }
        m
    }

    /// Looks a lattice coordinate up in the vertex list.
    fn find_vertex(&self, x: i64, z: i64) -> (r: Option<usize>)
        ensures
            match r {
                Some(i) => i < self.verts@.len() && self.pt(i as int) == (x as int, z as int),
                None => !self.covers((x as int, z as int)),
            },
    {
        let mut i: usize = 0;
        while i < self.verts.len()
            invariant
                0 <= i <= self.verts@.len(),
                forall|j: int| 0 <= j < i ==> self.pt(j) != (x as int, z as int),
            decreases self.verts@.len() - i,
        {
            let v = self.verts[i];
            if v.x == x && v.z == z {
                return Some(i);
            }
            i = i + 1;
        }
        None
    }

    /// Welds one lattice coordinate: returns the index of the vertex at
    /// `(x, z)`, appending a new vertex only if the coordinate is not
    /// covered yet.
    pub fn add_vertex(&mut self, x: i64, z: i64) -> (idx: u32)
        requires
            old(self).wf(),
            old(self).verts@.len() + 1 <= 0x100000000,
            -MAX_COORD_ABS <= x <= MAX_COORD_ABS,
            -MAX_COORD_ABS <= z <= MAX_COORD_ABS,
        ensures
            final(self).wf(),
            final(self).indices@ == old(self).indices@,
            old(self).verts@.is_prefix_of(final(self).verts@),
            old(self).verts@.len() <= final(self).verts@.len() <= old(self).verts@.len() + 1,
            (idx as int) < final(self).verts@.len(),
            final(self).pt(idx as int) == (x as int, z as int),
            forall|p: (int, int)|
                final(self).covers(p) <==> (old(self).covers(p) || p == (x as int, z as int)),
            old(self).covers((x as int, z as int)) <==> final(self).verts@ == old(self).verts@,
    {
        let found = self.find_vertex(x, z);
        match found {
            Some(i) => {
                proof {
                    assert(old(self).covers((x as int, z as int)));
                    assert forall|p: (int, int)|
                        self.covers(p) <==> (old(self).covers(p) || p == (x as int, z as int)) by {
                        if p == (x as int, z as int) {
                            assert(self.covers(p));
                        }
                    }
                }
                i as u32
            },
            None => {
                let idx = self.verts.len() as u32;
                self.verts.push(LatticePoint { x, z });
                proof {
                    let n = old(self).verts@.len() as int;
                    assert(self.verts@ == old(self).verts@.push(LatticePoint { x, z }));
                    assert(self.pt(n) == (x as int, z as int));
                    assert forall|i2: int, j2: int|
                        0 <= i2 < j2 < self.verts@.len() implies self.pt(i2) != self.pt(j2) by {
                        if j2 < n {
                            assert(old(self).pt(i2) == self.pt(i2));
                            assert(old(self).pt(j2) == self.pt(j2));
                        } else {
                            assert(j2 == n);
                            assert(old(self).pt(i2) == self.pt(i2));
                            if self.pt(i2) == self.pt(j2) {
                                assert(old(self).covers((x as int, z as int)));
                            }
                        }
                    }
                    assert forall|p: (int, int)|
                        self.covers(p) <==> (old(self).covers(p) || p == (x as int, z as int)) by {
                        if self.covers(p) {
                            let i2 = choose|i2: int|
                                0 <= i2 < self.verts@.len() && self.pt(i2) == p;
                            if i2 < n {
                                assert(old(self).pt(i2) == p);
                                assert(old(self).covers(p));
                            } else {
                                assert(p == (x as int, z as int));
                            }
                        }
                        if old(self).covers(p) {
                            let i2 = choose|i2: int|
                                0 <= i2 < old(self).verts@.len() && old(self).pt(i2) == p;
                            assert(self.pt(i2) == p);
                            assert(self.covers(p));
                        }
                        if p == (x as int, z as int) {
                            assert(self.pt(n) == p);
                            assert(self.covers(p));
                        }
                    }
                    assert(!(self.verts@ == old(self).verts@)) by {
                        assert(self.verts@.len() != old(self).verts@.len());
                    }
                }
                idx
            },
        }
    }

    /// Emits one triangle, welding its three corners.
    pub fn add_triangle(&mut self, x1: i64, z1: i64, x2: i64, z2: i64, x3: i64, z3: i64)
        requires
            old(self).wf(),
            old(self).vertices_are_touched(),
            old(self).verts@.len() + 3 <= 0x100000000,
            old(self).indices@.len() + 3 <= usize::MAX,
            -MAX_COORD_ABS <= x1 <= MAX_COORD_ABS,
            -MAX_COORD_ABS <= z1 <= MAX_COORD_ABS,
            -MAX_COORD_ABS <= x2 <= MAX_COORD_ABS,
            -MAX_COORD_ABS <= z2 <= MAX_COORD_ABS,
            -MAX_COORD_ABS <= x3 <= MAX_COORD_ABS,
            -MAX_COORD_ABS <= z3 <= MAX_COORD_ABS,
        ensures
            final(self).wf(),
            final(self).vertices_are_touched(),
            old(self).verts@.is_prefix_of(final(self).verts@),
            old(self).verts@.len() <= final(self).verts@.len() <= old(self).verts@.len() + 3,
            final(self).indices@.len() == old(self).indices@.len() + 3,
            final(self).tris() == old(self).tris().push(
                ((x1 as int, z1 as int), (x2 as int, z2 as int), (x3 as int, z3 as int)),
            ),
    {
        let i1 = self.add_vertex(x1, z1);
        let ghost s1 = *self;
        let i2 = self.add_vertex(x2, z2);
        let ghost s2 = *self;
        let i3 = self.add_vertex(x3, z3);
        let ghost mid = *self;
        self.indices.push(i1);
        self.indices.push(i2);
        self.indices.push(i3);
        proof {
            let nt = ((x1 as int, z1 as int), (x2 as int, z2 as int), (x3 as int, z3 as int));
            let oldc = old(self).tri_count();
            assert(self.indices@ == mid.indices@.push(i1).push(i2).push(i3));
            assert(mid.indices@ == old(self).indices@);
            assert(self.verts@ == mid.verts@);
            assert(self.indices@.len() == old(self).indices@.len() + 3);
            assert(self.indices@.len() % 3 == 0) by {
                assert(old(self).indices@.len() % 3 == 0);
            }
            assert(self.tri_count() == oldc + 1);
            // The welded corner indices stay valid as the vertex list only
            // grows.
            assert((i1 as int) < s1.verts@.len());
            assert(s1.verts@.is_prefix_of(mid.verts@));
            assert(mid.pt(i1 as int) == (x1 as int, z1 as int)) by {
                assert(mid.verts@[i1 as int] == s1.verts@[i1 as int]);
            }
            assert(mid.pt(i2 as int) == (x2 as int, z2 as int)) by {
                assert(mid.verts@[i2 as int] == s2.verts@[i2 as int]);
            }
            assert(mid.pt(i3 as int) == (x3 as int, z3 as int));
            assert(self.welded()) by {
                assert forall|a: int, b: int|
                    0 <= a < b < self.verts@.len() implies self.pt(a) != self.pt(b) by {
                    assert(self.pt(a) == mid.pt(a));
                    assert(self.pt(b) == mid.pt(b));
                }
            }
            assert(self.indices_valid()) by {
                assert forall|k: int|
                    0 <= k < self.indices@.len() implies (self.indices@[k] as int)
                    < self.verts@.len() by {
                    if k < mid.indices@.len() {
                        assert(self.indices@[k] == mid.indices@[k]);
                        assert((mid.indices@[k] as int) < mid.verts@.len());
                    } else {
                        assert(self.indices@[k] == i1 || self.indices@[k] == i2
                            || self.indices@[k] == i3);
                    }
                }
            }
            // The three fresh indices point at the welded corners.
            assert(self.indices@[3 * oldc] == i1);
            assert(self.indices@[3 * oldc + 1] == i2);
            assert(self.indices@[3 * oldc + 2] == i3);
            assert(self.pt(i1 as int) == (x1 as int, z1 as int)) by {
                assert(self.verts@[i1 as int] == mid.verts@[i1 as int]);
            }
            assert(self.pt(i2 as int) == (x2 as int, z2 as int)) by {
                assert(self.verts@[i2 as int] == mid.verts@[i2 as int]);
            }
            assert(self.pt(i3 as int) == (x3 as int, z3 as int)) by {
                assert(self.verts@[i3 as int] == mid.verts@[i3 as int]);
            }
            assert(self.tri(oldc) == nt);
            // Old triangles are untouched: their indices and vertices are
            // prefixes of the new lists.
            assert forall|t: int| 0 <= t < oldc implies self.tri(t) == old(self).tri(t) by {
                assert(self.indices@[3 * t] == old(self).indices@[3 * t]);
                assert(self.indices@[3 * t + 1] == old(self).indices@[3 * t + 1]);
                assert(self.indices@[3 * t + 2] == old(self).indices@[3 * t + 2]);
                assert((old(self).indices@[3 * t] as int) < old(self).verts@.len());
                assert((old(self).indices@[3 * t + 1] as int) < old(self).verts@.len());
                assert((old(self).indices@[3 * t + 2] as int) < old(self).verts@.len());
                assert(self.pt(old(self).indices@[3 * t] as int)
                    == old(self).pt(old(self).indices@[3 * t] as int));
                assert(self.pt(old(self).indices@[3 * t + 1] as int)
                    == old(self).pt(old(self).indices@[3 * t + 1] as int));
                assert(self.pt(old(self).indices@[3 * t + 2] as int)
                    == old(self).pt(old(self).indices@[3 * t + 2] as int));
            }
            assert(self.tris() =~= old(self).tris().push(nt));
            lemma_covers_agree(*self, mid);
            assert forall|p: (int, int)| #![trigger self.covers(p)]
                self.covers(p) <==> tris_touch(self.tris(), p) by {
                lemma_tris_touch_push(old(self).tris(), nt, p);
                assert(s1.covers(p) <==> (old(self).covers(p) || p == nt.0));
                assert(s2.covers(p) <==> (s1.covers(p) || p == nt.1));
                assert(mid.covers(p) <==> (s2.covers(p) || p == nt.2));
                assert(self.covers(p) <==> (old(self).covers(p) || tri_corner(nt, p)));
            }
        }
    }

    /// Emits the two counter-clockwise triangles of one covered unit cell
    /// with lower corner `(x, z)`.
    pub fn add_square(&mut self, x: i64, z: i64)
        requires
            old(self).wf(),
            old(self).vertices_are_touched(),
            old(self).verts@.len() + 6 <= 0x100000000,
            old(self).indices@.len() + 6 <= usize::MAX,
            -MAX_COORD_ABS <= x < MAX_COORD_ABS,
            -MAX_COORD_ABS <= z < MAX_COORD_ABS,
        ensures
            final(self).wf(),
            final(self).vertices_are_touched(),
            old(self).verts@.is_prefix_of(final(self).verts@),
            old(self).verts@.len() <= final(self).verts@.len() <= old(self).verts@.len() + 6,
            final(self).indices@.len() == old(self).indices@.len() + 6,
            final(self).tris() == old(self).tris()
                .push(((x as int, z as int), (x as int, z + 1), (x + 1, z + 1)))
                .push(((x as int, z as int), (x + 1, z + 1), (x + 1, z as int))),
    {
        self.add_triangle(x, z, x, z + 1, x + 1, z + 1);
        self.add_triangle(x, z, x + 1, z + 1, x + 1, z);
    }

    /// Derives the wireframe companion of a built mesh on demand: each
    /// triangle contributes its three edges, as a line list over the
    /// same welded vertices.
    pub fn edge_indices(&self) -> (e: Vec<u32>)
        requires
            self.wf(),
        ensures
            e@.len() == 2 * self.indices@.len(),
            forall|t: int|
                0 <= t < self.tri_count() ==> #[trigger] e@[6 * t] == self.indices@[3 * t]
                    && e@[6 * t + 1] == self.indices@[3 * t + 1]
                    && e@[6 * t + 2] == self.indices@[3 * t + 1]
                    && e@[6 * t + 3] == self.indices@[3 * t + 2]
                    && e@[6 * t + 4] == self.indices@[3 * t + 2]
                    && e@[6 * t + 5] == self.indices@[3 * t],
            forall|k: int| 0 <= k < e@.len() ==> (#[trigger] e@[k] as int) < self.verts@.len(),
    {
        let mut e: Vec<u32> = Vec::new();
        let mut i: usize = 0;
        while i < self.indices.len()
            invariant
                self.wf(),
                0 <= i <= self.indices@.len(),
                i % 3 == 0,
                e@.len() == 2 * i,
                forall|t: int|
                    0 <= t < i / 3 ==> #[trigger] e@[6 * t] == self.indices@[3 * t]
                        && e@[6 * t + 1] == self.indices@[3 * t + 1]
                        && e@[6 * t + 2] == self.indices@[3 * t + 1]
                        && e@[6 * t + 3] == self.indices@[3 * t + 2]
                        && e@[6 * t + 4] == self.indices@[3 * t + 2]
                        && e@[6 * t + 5] == self.indices@[3 * t],
                forall|k: int| 0 <= k < e@.len() ==> (#[trigger] e@[k] as int) < self.verts@.len(),
            decreases self.indices@.len() - i,
        {
            proof {
                // A whole triangle is left: both `i` and the length are
                // multiples of three.
                vstd::arithmetic::div_mod::lemma_fundamental_div_mod(i as int, 3);
                vstd::arithmetic::div_mod::lemma_fundamental_div_mod(
                    self.indices@.len() as int,
                    3,
                );
                assert(self.indices@.len() - i >= 3);
            }
            let a = self.indices[i];
            let b = self.indices[i + 1];
            let c = self.indices[i + 2];
            let ghost e0 = e@;
            e.push(a);
            e.push(b);
            e.push(b);
            e.push(c);
            e.push(c);
            e.push(a);
            proof {
                let ti = i as int;
                vstd::arithmetic::div_mod::lemma_fundamental_div_mod(ti, 3);
                vstd::arithmetic::div_mod::lemma_fundamental_div_mod_converse(
                    ti + 3,
                    3,
                    ti / 3 + 1,
                    0,
                );
                assert(3 * (ti / 3) == ti);
                assert forall|t: int|
                    0 <= t < (ti + 3) / 3 implies #[trigger] e@[6 * t] == self.indices@[3 * t]
                    && e@[6 * t + 1] == self.indices@[3 * t + 1]
                    && e@[6 * t + 2] == self.indices@[3 * t + 1]
                    && e@[6 * t + 3] == self.indices@[3 * t + 2]
                    && e@[6 * t + 4] == self.indices@[3 * t + 2]
                    && e@[6 * t + 5] == self.indices@[3 * t] by {
                    if t < ti / 3 {
                        assert(e@[6 * t] == e0[6 * t]);
                        assert(e@[6 * t + 1] == e0[6 * t + 1]);
                        assert(e@[6 * t + 2] == e0[6 * t + 2]);
                        assert(e@[6 * t + 3] == e0[6 * t + 3]);
                        assert(e@[6 * t + 4] == e0[6 * t + 4]);
                        assert(e@[6 * t + 5] == e0[6 * t + 5]);
                    } else {
                        assert(t == ti / 3);
                        assert(6 * t == 2 * ti);
                        assert(3 * t == ti);
                    }
                }
            }
            i = i + 3;
        }
        e
    }

    /// Computes the cached bounding extents of a built mesh. An empty
    /// mesh gets the zero box.
    pub fn extents(&self) -> (b: TileBounds)
        ensures
            bounds_valid(*self, b),
    {
        if self.verts.len() == 0 {
            return TileBounds { min_x: 0, max_x: 0, min_z: 0, max_z: 0 };
        }
        let first = self.verts[0];
        let mut b = TileBounds { min_x: first.x, max_x: first.x, min_z: first.z, max_z: first.z };
        let mut i: usize = 1;
        while i < self.verts.len()
            invariant
                1 <= i <= self.verts@.len(),
                forall|j: int|
                    0 <= j < i ==> b.min_x <= #[trigger] self.verts@[j].x <= b.max_x
                        && b.min_z <= self.verts@[j].z <= b.max_z,
                exists|j: int| 0 <= j < i && self.verts@[j].x == b.min_x,
                exists|j: int| 0 <= j < i && self.verts@[j].x == b.max_x,
                exists|j: int| 0 <= j < i && self.verts@[j].z == b.min_z,
                exists|j: int| 0 <= j < i && self.verts@[j].z == b.max_z,
            decreases self.verts@.len() - i,
        {
            let v = self.verts[i];
            if v.x < b.min_x {
                b.min_x = v.x;
            }
            if v.x > b.max_x {
                b.max_x = v.x;
            }
            if v.z < b.min_z {
                b.min_z = v.z;
            }
            if v.z > b.max_z {
                b.max_z = v.z;
            }
            i = i + 1;
        }
        b
    }
}

} // verus!
