use vstd::prelude::*;

use crate::material::Material;
use crate::render::vertex::Vertex;
use crate::vec3d::Vec3d;

verus! {

/// Largest node count whose indices still fit the 16-bit index buffer that
/// `render_data` emits.
pub const MAX_NODES: usize = 65536;

/// Why a mesh or an element record was rejected at load time.
#[derive(Clone, Copy, Debug, PartialEq, Eq, Structural)]
pub enum MeshError {
    /// An element record does not hold exactly eight node references.
    WrongElementLength,
    /// A one-based node reference was zero, so it names no node.
    ZeroNodeReference,
    /// An element references a node index at or past the node count.
    NodeIndexOutOfRange,
    /// The node count exceeds what a 16-bit index buffer can address.
    TooManyNodes,
}

/// One 8-node hexahedral element: an ordered list of global node indices.
///
/// The order encodes the vertex convention: local corners 0 to 3 form one
/// quadrilateral face, 4 to 7 the opposite face, and corner `i` is joined to
/// corner `i + 4` by a vertical edge.
#[derive(Clone, Debug)]
pub struct Element {
    pub nodes: Vec<usize>,
}

impl Element {
    /// A well-formed element holds exactly eight node indices, each one a
    /// valid index into a node list of length `node_count`.
    pub open spec fn wf(self, node_count: nat) -> bool {
        &&& self.nodes@.len() == 8
        &&& forall|i: int| 0 <= i < 8 ==> (#[trigger] self.nodes@[i]) < node_count
    }

    pub fn new(nodes: Vec<usize>) -> (e: Element)
        ensures
            e.nodes@ == nodes@,
    {
        Element { nodes }
    }

    /// The global node index of the element's `local`-th corner: the plain,
    /// bounds-checked accessor for element-local lookup.
    pub fn node_at(&self, local: usize) -> (g: usize)
        requires
            local < self.nodes@.len(),
        ensures
            g == self.nodes@[local as int],
    {
        self.nodes[local]
    }

    /// Converts one parsed element record from the file convention's
    /// one-based node references to the zero-based indices the mesh stores.
    /// Rejects records of the wrong length and references to node zero
    /// (which names no node under the one-based convention).
    pub fn from_one_based(raw: &Vec<usize>) -> (r: Result<Element, MeshError>)
        ensures
            r is Ok <==> raw@.len() == 8 && (forall|i: int| 0 <= i < 8 ==> 1 <= #[trigger] raw@[i]),
            r matches Ok(e) ==> e.nodes@.len() == 8
                && (forall|i: int| 0 <= i < 8 ==> #[trigger] e.nodes@[i] == raw@[i] - 1),
            r matches Err(err) ==> if raw@.len() != 8 {
                err == MeshError::WrongElementLength
            } else {
                err == MeshError::ZeroNodeReference
            },
    {
        if raw.len() != 8 {
            return Err(MeshError::WrongElementLength);
        }
        let mut nodes: Vec<usize> = Vec::new();
        let mut i: usize = 0;
        while i < 8
            invariant
                raw@.len() == 8,
                i <= 8,
                nodes@.len() == i,
                forall|j: int| 0 <= j < i ==> 1 <= #[trigger] raw@[j],
                forall|j: int| 0 <= j < i ==> #[trigger] nodes@[j] == raw@[j] - 1,
            decreases 8 - i,
        {
            let v = raw[i];
            if v == 0 {
                return Err(MeshError::ZeroNodeReference);
            }
            nodes.push(v - 1);
            i += 1;
        }
        Ok(Element { nodes })
    }
}

/// The twelve undirected edges of a hexahedron, as pairs of local corner
/// indices under the element's vertex convention, in emission order.
pub open spec fn hex_edges() -> Seq<(int, int)> {
    seq![
        (0int, 1int),
        (0int, 3int),
        (0int, 4int),
        (1int, 2int),
        (1int, 5int),
        (2int, 3int),
        (2int, 6int),
        (3int, 7int),
        (4int, 5int),
        (4int, 7int),
        (5int, 6int),
        (6int, 7int),
    ]
}

/// The local corner consulted for slot `k` of the 24 index-buffer entries an
/// element contributes: the two ends of edge `k / 2`.
pub open spec fn edge_slot_local(k: int) -> int {
    if k % 2 == 0 {
        hex_edges()[k / 2].0
    } else {
        hex_edges()[k / 2].1
    }
}

/// The 24 index-buffer entries one element contributes.
pub open spec fn element_indices(e: Element) -> Seq<u16> {
    Seq::new(24, |k: int| e.nodes@[edge_slot_local(k)] as u16)
}

/// The index-buffer entries of the first `n` elements of `m`, in order.
pub open spec fn indices_upto(m: Mesh, n: int) -> Seq<u16>
    decreases n,
{
    if n <= 0 {
        Seq::empty()
    } else {
        indices_upto(m, n - 1) + element_indices(m.elements@[n - 1])
    }
}

/// The whole index buffer `render_data` emits for `m`.
pub open spec fn mesh_indices(m: Mesh) -> Seq<u16> {
    indices_upto(m, m.elements@.len() as int)
}

/// The vertex buffer `render_data` emits for `m`: one vertex per node,
/// carrying the node's coordinate encodings and the material color.
pub open spec fn mesh_vertices(m: Mesh) -> Seq<Vertex> {
    Seq::new(
        m.nodes@.len(),
        |i: int| Vertex { position: m.nodes@[i], color: m.material.color },
    )
}

/// A hexahedral mesh: node positions, 8-node elements over them, and the
/// material the whole mesh is tinted with. Read-only once constructed.
#[derive(Clone, Debug)]
pub struct Mesh {
    pub nodes: Vec<Vec3d>,
    pub elements: Vec<Element>,
    pub material: Material,
}

impl Mesh {
    /// Every element is well-formed over the node list, and the node count
    /// fits the 16-bit index width of the render output.
    pub open spec fn wf(self) -> bool {
        &&& self.nodes@.len() <= MAX_NODES
        &&& forall|e: int|
            0 <= e < self.elements@.len() ==> (#[trigger] self.elements@[e]).wf(
                self.nodes@.len(),
            )
    }

    /// Direct constructor for callers that already hold validated parts
    /// (zero-based, bounds-checked element indices). The loading path goes
    /// through `from_parts`, which checks instead of assuming.
    pub fn new(nodes: Vec<Vec3d>, elements: Vec<Element>, material: Material) -> (m: Mesh)
        requires
            nodes@.len() <= MAX_NODES,
            forall|e: int|
                0 <= e < elements@.len() ==> (#[trigger] elements@[e]).wf(nodes@.len()),
        ensures
            m.nodes@ == nodes@,
            m.elements@ == elements@,
            m.material == material,
            m.wf(),
    {
        Mesh { nodes, elements, material }
    }

    /// Checked constructor: fails fast, returning no partial mesh, if the
    /// node count overflows the 16-bit index width or any element is not a
    /// valid 8-node element over the node list.
    pub fn from_parts(nodes: Vec<Vec3d>, elements: Vec<Element>, material: Material) -> (r:
        Result<Mesh, MeshError>)
        ensures
            r is Ok <==> nodes@.len() <= MAX_NODES && (forall|e: int|
                0 <= e < elements@.len() ==> (#[trigger] elements@[e]).wf(nodes@.len())),
            r matches Ok(m) ==> m.nodes@ == nodes@ && m.elements@ == elements@ && m.material
                == material && m.wf(),
            r matches Err(err) ==> match err {
                MeshError::TooManyNodes => nodes@.len() > MAX_NODES,
                MeshError::WrongElementLength => exists|e: int|
                    0 <= e < elements@.len() && (#[trigger] elements@[e]).nodes@.len() != 8,
                MeshError::NodeIndexOutOfRange => exists|e: int, i: int|
                    0 <= e < elements@.len() && 0 <= i < elements@[e].nodes@.len()
                        && #[trigger] elements@[e].nodes@[i] >= nodes@.len(),
                MeshError::ZeroNodeReference => false,
            },
    {
        if nodes.len() > MAX_NODES {
            return Err(MeshError::TooManyNodes);
        }
        let mut e: usize = 0;
        while e < elements.len()
            invariant
                nodes@.len() <= MAX_NODES,
                e <= elements@.len(),
                forall|j: int| 0 <= j < e ==> (#[trigger] elements@[j]).wf(nodes@.len()),
            decreases elements@.len() - e,
        {
            if elements[e].nodes.len() != 8 {
                return Err(MeshError::WrongElementLength);
            }
            let mut i: usize = 0;
            while i < 8
                invariant
                    0 <= e < elements@.len(),
                    elements@[e as int].nodes@.len() == 8,
                    i <= 8,
                    forall|j: int|
                        0 <= j < i ==> (#[trigger] elements@[e as int].nodes@[j])
                            < nodes@.len(),
                decreases 8 - i,
            {
                if elements[e].nodes[i] >= nodes.len() {
                    return Err(MeshError::NodeIndexOutOfRange);
                }
                i += 1;
            }
            assert(elements@[e as int].wf(nodes@.len()));
            e += 1;
        }
        Ok(Mesh { nodes, elements, material })
    }

    /// Derives the renderable wireframe: one vertex per node (coordinate
    /// encodings passed through unchanged, color taken from the material)
    /// and, per element, the twelve hexahedron edges as pairs of 16-bit
    /// indices in line-list order.
    ///
    /// The output is pinned to a function of the mesh alone, so two calls on
    /// an unmodified mesh return identical buffers.
    pub fn render_data(&self) -> (r: (Vec<Vertex>, Vec<u16>))
        requires
            self.wf(),
        ensures
            r.0@ == mesh_vertices(*self),
            r.1@ == mesh_indices(*self),
            r.0@.len() == self.nodes@.len(),
            r.1@.len() == 24 * self.elements@.len(),
            forall|j: int| 0 <= j < r.1@.len() ==> (#[trigger] r.1@[j]) < self.nodes@.len(),
    {
        let mut vertices: Vec<Vertex> = Vec::new();
        let mut i: usize = 0;
        while i < self.nodes.len()
            invariant
                self.wf(),
                i <= self.nodes@.len(),
                vertices@ =~= mesh_vertices(*self).take(i as int),
            decreases self.nodes@.len() - i,
        {
            let node = self.nodes[i];
            vertices.push(Vertex { position: node, color: self.material.color });
            assert(vertices@ =~= mesh_vertices(*self).take(i + 1));
            i += 1;
        }
        assert(vertices@ =~= mesh_vertices(*self));

        let mut indices: Vec<u16> = Vec::new();
        let mut e: usize = 0;
        while e < self.elements.len()
            invariant
                self.wf(),
                e <= self.elements@.len(),
                indices@ =~= indices_upto(*self, e as int),
            decreases self.elements@.len() - e,
        {
            let element = &self.elements[e];
            assert(element.wf(self.nodes@.len()));
            let ghost before = indices@;
            let mut k: usize = 0;
            while k < 24
                invariant
                    self.wf(),
                    0 <= e < self.elements@.len(),
                    element == self.elements@[e as int],
                    element.wf(self.nodes@.len()),
                    k <= 24,
                    indices@ =~= before + element_indices(*element).take(k as int),
                decreases 24 - k,
            {
                let local = edge_local(k);
                let global = element.node_at(local);
                assert(global < MAX_NODES);
                indices.push(global as u16);
                assert(element_indices(*element)[k as int] == global as u16);
                assert(indices@ =~= before + element_indices(*element).take(k + 1));
                k += 1;
            }
            assert(element_indices(*element).take(24) =~= element_indices(*element));
            assert(indices@ =~= indices_upto(*self, e + 1));
            e += 1;
        }
        assert(indices@ =~= mesh_indices(*self));
        proof {
            lemma_indices_upto_len(*self, self.elements@.len() as int);
            lemma_indices_upto_bounds(*self, self.elements@.len() as int);
        }
        (vertices, indices)
    }
}

/// The exec twin of `edge_slot_local`: which local corner slot `k` of an
/// element's 24 emitted indices reads.
fn edge_local(k: usize) -> (l: usize)
    requires
        k < 24,
    ensures
        l as int == edge_slot_local(k as int),
        l < 8,
{
    match k {
        0 => 0,
        1 => 1,
        2 => 0,
        3 => 3,
        4 => 0,
        5 => 4,
        6 => 1,
        7 => 2,
        8 => 1,
        9 => 5,
        10 => 2,
        11 => 3,
        12 => 2,
        13 => 6,
        14 => 3,
        15 => 7,
        16 => 4,
        17 => 5,
        18 => 4,
        19 => 7,
        20 => 5,
        21 => 6,
        22 => 6,
        _ => 7,
    }
}

/// The index buffer of the first `n` elements holds `24 * n` entries.
pub proof fn lemma_indices_upto_len(m: Mesh, n: int)
    requires
        0 <= n <= m.elements@.len(),
    ensures
        indices_upto(m, n).len() == 24 * n,
    decreases n,
{
    if n > 0 {
        lemma_indices_upto_len(m, n - 1);
    }
}

/// Every local corner slot names one of the eight element corners.
pub proof fn lemma_edge_slot_local_range()
    ensures
        forall|k: int| 0 <= k < 24 ==> 0 <= #[trigger] edge_slot_local(k) < 8,
{
    assert forall|k: int| 0 <= k < 24 implies 0 <= #[trigger] edge_slot_local(k) < 8 by {
        let q = k / 2;
        assert(0 <= q < 12);
        if q == 0 {
            assert(hex_edges()[0] == (0int, 1int));
        } else if q == 1 {
            assert(hex_edges()[1] == (0int, 3int));
        } else if q == 2 {
            assert(hex_edges()[2] == (0int, 4int));
        } else if q == 3 {
            assert(hex_edges()[3] == (1int, 2int));
        } else if q == 4 {
            assert(hex_edges()[4] == (1int, 5int));
        } else if q == 5 {
            assert(hex_edges()[5] == (2int, 3int));
        } else if q == 6 {
            assert(hex_edges()[6] == (2int, 6int));
        } else if q == 7 {
            assert(hex_edges()[7] == (3int, 7int));
        } else if q == 8 {
            assert(hex_edges()[8] == (4int, 5int));
        } else if q == 9 {
            assert(hex_edges()[9] == (4int, 7int));
        } else if q == 10 {
            assert(hex_edges()[10] == (5int, 6int));
        } else {
            assert(hex_edges()[11] == (6int, 7int));
        }
    };
}

/// Entry `24 * e + j` of the index buffer is entry `j` of element `e`'s own
/// contribution.
pub proof fn lemma_indices_upto_index(m: Mesh, n: int, e: int, j: int)
    requires
        0 <= e < n <= m.elements@.len(),
        0 <= j < 24,
    ensures
        indices_upto(m, n)[24 * e + j] == element_indices(m.elements@[e])[j],
    decreases n,
{
    lemma_indices_upto_len(m, n - 1);
    if e < n - 1 {
        lemma_indices_upto_index(m, n - 1, e, j);
    }
}

/// LAW: the index buffer is, pair by pair, the hexahedron edge list of each
/// element in element order — pair `k` of element `e` joins the element's
/// corners `hex_edges()[k].0` and `hex_edges()[k].1`.
pub proof fn lemma_mesh_indices_pairs(m: Mesh, e: int, k: int)
    requires
        m.wf(),
        0 <= e < m.elements@.len(),
        0 <= k < 12,
    ensures
        mesh_indices(m)[24 * e + 2 * k] == m.elements@[e].nodes@[hex_edges()[k].0] as u16,
        mesh_indices(m)[24 * e + 2 * k + 1] == m.elements@[e].nodes@[hex_edges()[k].1] as u16,
{
    lemma_indices_upto_index(m, m.elements@.len() as int, e, 2 * k);
    lemma_indices_upto_index(m, m.elements@.len() as int, e, 2 * k + 1);
    assert(edge_slot_local(2 * k) == hex_edges()[k].0);
    assert(edge_slot_local(2 * k + 1) == hex_edges()[k].1);
}

/// Whether local corners `a` and `b` are joined by a hexahedron edge under
/// the element's vertex convention: ring neighbours within the corner ring
/// 0-1-2-3 or within 4-5-6-7, or vertically aligned corners `i` and `i + 4`.
/// Face and space diagonals are exactly the remaining corner pairs.
pub open spec fn is_hex_edge(a: int, b: int) -> bool {
    &&& 0 <= a < 8
    &&& 0 <= b < 8
    &&& a != b
    &&& if a < 4 && b < 4 {
        a - b == 1 || b - a == 1 || a - b == 3 || b - a == 3
    } else if a >= 4 && b >= 4 {
        a - b == 1 || b - a == 1 || a - b == 3 || b - a == 3
    } else {
        a - b == 4 || b - a == 4
    }
}

/// A corner pair with its ends in ascending order, so that the two
/// directions of one undirected edge compare equal.
pub open spec fn norm_pair(p: (int, int)) -> (int, int) {
    if p.0 <= p.1 {
        p
    } else {
        (p.1, p.0)
    }
}

/// LAW: the twelve emitted corner pairs are exactly the hexahedron's edge
/// set under the vertex convention — every pair is an edge, no two pairs
/// name the same undirected edge, and every edge is named — so no edge is
/// missing, none is doubled, and no face or space diagonal is ever emitted.
pub proof fn lemma_hex_edges_exact()
    ensures
        hex_edges().len() == 12,
        forall|k: int|
            0 <= k < 12 ==> is_hex_edge((#[trigger] hex_edges()[k]).0, hex_edges()[k].1),
        forall|k1: int, k2: int|
            0 <= k1 < k2 < 12 ==> norm_pair(#[trigger] hex_edges()[k1]) != norm_pair(
                #[trigger] hex_edges()[k2],
            ),
        forall|a: int, b: int|
            #[trigger] is_hex_edge(a, b) ==> exists|k: int|
                0 <= k < 12 && norm_pair(#[trigger] hex_edges()[k]) == norm_pair((a, b)),
{
    assert forall|a: int, b: int| #[trigger] is_hex_edge(a, b) implies exists|k: int|
        0 <= k < 12 && norm_pair(#[trigger] hex_edges()[k]) == norm_pair((a, b)) by {
        let p = norm_pair((a, b));
        if p == (0int, 1int) {
            assert(norm_pair(hex_edges()[0]) == p);
        } else if p == (0int, 3int) {
            assert(norm_pair(hex_edges()[1]) == p);
        } else if p == (0int, 4int) {
            assert(norm_pair(hex_edges()[2]) == p);
        } else if p == (1int, 2int) {
            assert(norm_pair(hex_edges()[3]) == p);
        } else if p == (1int, 5int) {
            assert(norm_pair(hex_edges()[4]) == p);
        } else if p == (2int, 3int) {
            assert(norm_pair(hex_edges()[5]) == p);
        } else if p == (2int, 6int) {
            assert(norm_pair(hex_edges()[6]) == p);
        } else if p == (3int, 7int) {
            assert(norm_pair(hex_edges()[7]) == p);
        } else if p == (4int, 5int) {
            assert(norm_pair(hex_edges()[8]) == p);
        } else if p == (4int, 7int) {
            assert(norm_pair(hex_edges()[9]) == p);
        } else if p == (5int, 6int) {
            assert(norm_pair(hex_edges()[10]) == p);
        } else {
            assert(p == (6int, 7int));
            assert(norm_pair(hex_edges()[11]) == p);
        }
    };
}

/// Every entry of the index buffer of the first `n` elements is a valid
/// node index of a well-formed mesh.
pub proof fn lemma_indices_upto_bounds(m: Mesh, n: int)
    requires
        m.wf(),
        0 <= n <= m.elements@.len(),
    ensures
        forall|j: int|
            0 <= j < indices_upto(m, n).len() ==> (#[trigger] indices_upto(m, n)[j])
                < m.nodes@.len(),
    decreases n,
{
    if n > 0 {
        lemma_indices_upto_bounds(m, n - 1);
        lemma_indices_upto_len(m, n - 1);
        lemma_edge_slot_local_range();
        assert forall|j: int| 0 <= j < indices_upto(m, n).len() implies (#[trigger] indices_upto(
            m,
            n,
        )[j]) < m.nodes@.len() by {
            if j < 24 * (n - 1) {
                assert(indices_upto(m, n)[j] == indices_upto(m, n - 1)[j]);
            } else {
                let k = j - 24 * (n - 1);
                let e = m.elements@[n - 1];
                assert(e.wf(m.nodes@.len()));
                assert(indices_upto(m, n)[j] == element_indices(e)[k]);
                assert(0 <= edge_slot_local(k) < 8);
                assert(e.nodes@[edge_slot_local(k)] < m.nodes@.len());
            }
        };
    }
}

} // verus!
