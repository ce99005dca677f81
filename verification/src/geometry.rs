//! The static geometry of the globe: a land mesh and a coastline polyline.
//!
//! Geometry arrives as three headerless little-endian blobs: vertex
//! positions (three 32-bit numbers each), land triangles (three 32-bit
//! vertex indices each) and the coastline (one 32-bit vertex index per
//! point). It is decoded and validated once and never changes afterwards.

use vstd::prelude::*;
use crate::scalar::Scalar;

verus! {

/// Bytes of one encoded 32-bit word.
pub const WORD_BYTES: usize = 4;

/// Bytes of one encoded vertex or triangle: three words.
pub const TRIPLE_BYTES: usize = 12;

/// A point on (or near) the unit sphere.
#[derive(Clone, Copy, Debug)]
pub struct Vertex {
    pub x: Scalar,
    pub y: Scalar,
    pub z: Scalar,
}

/// Three vertex indices that span one filled triangle of the land mesh.
#[derive(Clone, Copy, Debug, PartialEq, Eq, Structural)]
pub struct Triangle {
    pub a: u32,
    pub b: u32,
    pub c: u32,
}

/// Why a set of geometry blobs was refused.
#[derive(Clone, Copy, Debug, PartialEq, Eq, Structural)]
pub enum AssetError {
    /// The position blob is not a whole number of vertices.
    PositionsLength,
    /// The land blob is not a whole number of triangles, or holds more
    /// indices than one draw call can count.
    LandIndicesLength,
    /// The coastline blob is not a whole number of indices, or holds more
    /// indices than one draw call can count.
    ContourIndicesLength,
    /// A land triangle names a vertex that does not exist.
    LandIndexRange,
    /// A coastline point names a vertex that does not exist.
    ContourIndexRange,
}

/// The little-endian 32-bit word that starts at byte `at`.
pub open spec fn le_word(bytes: Seq<u8>, at: int) -> u32 {
    (bytes[at] + 0x100 * bytes[at + 1] + 0x1_0000 * bytes[at + 2] + 0x100_0000 * bytes[at
        + 3]) as u32
}

/// The `k`-th vertex of a position blob.
pub open spec fn vertex_at(bytes: Seq<u8>, k: int) -> Vertex {
    Vertex {
        x: Scalar { bits: le_word(bytes, 12 * k) },
        y: Scalar { bits: le_word(bytes, 12 * k + 4) },
        z: Scalar { bits: le_word(bytes, 12 * k + 8) },
    }
}

/// The `k`-th triangle of a land blob.
pub open spec fn triangle_at(bytes: Seq<u8>, k: int) -> Triangle {
    Triangle {
        a: le_word(bytes, 12 * k),
        b: le_word(bytes, 12 * k + 4),
        c: le_word(bytes, 12 * k + 8),
    }
}

pub open spec fn decode_vertices(bytes: Seq<u8>) -> Seq<Vertex> {
    Seq::new((bytes.len() / 12) as nat, |k: int| vertex_at(bytes, k))
}

pub open spec fn decode_triangles(bytes: Seq<u8>) -> Seq<Triangle> {
    Seq::new((bytes.len() / 12) as nat, |k: int| triangle_at(bytes, k))
}

pub open spec fn decode_indices(bytes: Seq<u8>) -> Seq<u32> {
    Seq::new((bytes.len() / 4) as nat, |k: int| le_word(bytes, 4 * k))
}

/// Decoded geometry, as plain sequences.
pub struct Geometry {
    pub positions: Seq<Vertex>,
    pub land_indices: Seq<Triangle>,
    pub contour_indices: Seq<u32>,
}

/// Whether every corner of every triangle names one of `count` vertices.
pub open spec fn triangles_in_range(triangles: Seq<Triangle>, count: nat) -> bool {
    forall|k: int|
        0 <= k < triangles.len() ==> {
            &&& (#[trigger] triangles[k]).a < count
            &&& triangles[k].b < count
            &&& triangles[k].c < count
        }
}

/// Whether every index names one of `count` vertices.
pub open spec fn indices_in_range(indices: Seq<u32>, count: nat) -> bool {
    forall|k: int| 0 <= k < indices.len() ==> (#[trigger] indices[k]) < count
}

/// The vertex of each index, in the order of the indices.
pub open spec fn gather(positions: Seq<Vertex>, indices: Seq<u32>) -> Seq<Vertex> {
    Seq::new(indices.len(), |k: int| positions[indices[k] as int])
}

impl Geometry {
    /// Every index names a vertex, and both index counts fit a draw call.
    pub open spec fn valid(self) -> bool {
        &&& 3 * self.land_indices.len() <= u32::MAX
        &&& self.contour_indices.len() <= u32::MAX
        &&& triangles_in_range(self.land_indices, self.positions.len())
        &&& indices_in_range(self.contour_indices, self.positions.len())
    }

    /// The coastline as points: the vertex of each coastline index, in order.
    /// The points form an open line strip; it closes only where the index
    /// list itself returns to its first vertex.
    pub open spec fn contour_mesh(self) -> Seq<Vertex> {
        gather(self.positions, self.contour_indices)
    }
}

/// What the three blobs decode to, whether or not the result is valid.
pub open spec fn decode_geometry(positions: Seq<u8>, land: Seq<u8>, contour: Seq<u8>) -> Geometry {
    Geometry {
        positions: decode_vertices(positions),
        land_indices: decode_triangles(land),
        contour_indices: decode_indices(contour),
    }
}

/// The first fault of a set of blobs, or `None` where they hold valid
/// geometry. Lengths are examined before contents, land before coastline.
pub open spec fn asset_fault(positions: Seq<u8>, land: Seq<u8>, contour: Seq<u8>) -> Option<
    AssetError,
> {
    let geometry = decode_geometry(positions, land, contour);
    if positions.len() % 12 != 0 {
        Some(AssetError::PositionsLength)
    } else if land.len() % 12 != 0 || land.len() / 4 > u32::MAX {
        Some(AssetError::LandIndicesLength)
    } else if contour.len() % 4 != 0 || contour.len() / 4 > u32::MAX {
        Some(AssetError::ContourIndicesLength)
    } else if !triangles_in_range(geometry.land_indices, geometry.positions.len()) {
        Some(AssetError::LandIndexRange)
    } else if !indices_in_range(geometry.contour_indices, geometry.positions.len()) {
        Some(AssetError::ContourIndexRange)
    } else {
        None
    }
}

/// Blobs without a fault decode to valid geometry.
pub proof fn lemma_faultless_is_valid(positions: Seq<u8>, land: Seq<u8>, contour: Seq<u8>)
    requires
        asset_fault(positions, land, contour) is None,
    ensures
        decode_geometry(positions, land, contour).valid(),
{
}

fn read_word(bytes: &[u8], at: usize) -> (word: u32)
    requires
        at + 4 <= bytes@.len(),
    ensures
        word == le_word(bytes@, at as int),
{
    let b0: u32 = bytes[at] as u32;
    let b1: u32 = bytes[at + 1] as u32;
    let b2: u32 = bytes[at + 2] as u32;
    let b3: u32 = bytes[at + 3] as u32;
    b0 + 0x100 * b1 + 0x1_0000 * b2 + 0x100_0000 * b3
}

fn read_vertices(bytes: &[u8]) -> (out: Vec<Vertex>)
    requires
        bytes@.len() % 12 == 0,
    ensures
        out@ == decode_vertices(bytes@),
{
    let count: usize = bytes.len() / TRIPLE_BYTES;
    assert(12 * count <= usize::MAX);
    let mut out: Vec<Vertex> = Vec::with_capacity(count);
    let mut k: usize = 0;
    while k < count
        invariant
            12 * count == bytes@.len() <= usize::MAX,
            k <= count,
            out@.len() == k,
            forall|j: int| 0 <= j < k ==> out@[j] == vertex_at(bytes@, j),
        decreases count - k,
    {
        let at: usize = TRIPLE_BYTES * k;
        let vertex = Vertex {
            x: Scalar::from_bits(read_word(bytes, at)),
            y: Scalar::from_bits(read_word(bytes, at + 4)),
            z: Scalar::from_bits(read_word(bytes, at + 8)),
        };
        out.push(vertex);
        k += 1;
    }
    out
}

fn read_triangles(bytes: &[u8]) -> (out: Vec<Triangle>)
    requires
        bytes@.len() % 12 == 0,
    ensures
        out@ == decode_triangles(bytes@),
{
    let count: usize = bytes.len() / TRIPLE_BYTES;
    assert(12 * count <= usize::MAX);
    let mut out: Vec<Triangle> = Vec::with_capacity(count);
    let mut k: usize = 0;
    while k < count
        invariant
            12 * count == bytes@.len() <= usize::MAX,
            k <= count,
            out@.len() == k,
            forall|j: int| 0 <= j < k ==> out@[j] == triangle_at(bytes@, j),
        decreases count - k,
    {
        let at: usize = TRIPLE_BYTES * k;
        let triangle = Triangle {
            a: read_word(bytes, at),
            b: read_word(bytes, at + 4),
            c: read_word(bytes, at + 8),
        };
        out.push(triangle);
        k += 1;
    }
    out
}

fn read_indices(bytes: &[u8]) -> (out: Vec<u32>)
    requires
        bytes@.len() % 4 == 0,
    ensures
        out@ == decode_indices(bytes@),
{
    let count: usize = bytes.len() / WORD_BYTES;
    assert(4 * count <= usize::MAX);
    let mut out: Vec<u32> = Vec::with_capacity(count);
    let mut k: usize = 0;
    while k < count
        invariant
            4 * count == bytes@.len() <= usize::MAX,
            k <= count,
            out@.len() == k,
            forall|j: int| 0 <= j < k ==> out@[j] == le_word(bytes@, 4 * j),
        decreases count - k,
    {
        let word: u32 = read_word(bytes, WORD_BYTES * k);
        out.push(word);
        k += 1;
    }
    out
}

fn all_triangles_in_range(triangles: &Vec<Triangle>, count: usize) -> (ok: bool)
    ensures
        ok == triangles_in_range(triangles@, count as nat),
{
    let mut k: usize = 0;
    while k < triangles.len()
        invariant
            k <= triangles@.len(),
            forall|j: int|
                0 <= j < k ==> {
                    &&& (#[trigger] triangles@[j]).a < count
                    &&& triangles@[j].b < count
                    &&& triangles@[j].c < count
                },
        decreases triangles@.len() - k,
    {
        let t = triangles[k];
        if t.a as usize >= count || t.b as usize >= count || t.c as usize >= count {
            assert(!(triangles@[k as int].a < count && triangles@[k as int].b < count
                && triangles@[k as int].c < count));
            return false;
        }
        k += 1;
    }
    true
}

/// Looks up the vertex of each index; `None` where an index names no vertex.
fn gather_vertices(points: &Vec<Vertex>, indices: &Vec<u32>) -> (out: Option<Vec<Vertex>>)
    ensures
        out is Some == indices_in_range(indices@, points@.len()),
        out matches Some(mesh) ==> mesh@ == gather(points@, indices@),
{
    let mut mesh: Vec<Vertex> = Vec::with_capacity(indices.len());
    let mut k: usize = 0;
    while k < indices.len()
        invariant
            k <= indices@.len(),
            mesh@.len() == k,
            forall|j: int| 0 <= j < k ==> (#[trigger] indices@[j]) < points@.len(),
            forall|j: int| 0 <= j < k ==> mesh@[j] == points@[indices@[j] as int],
        decreases indices@.len() - k,
    {
        let index: usize = indices[k] as usize;
        if index >= points.len() {
            assert(!(indices@[k as int] < points@.len()));
            return None;
        }
        mesh.push(points[index]);
        k += 1;
    }
    assert(mesh@ =~= gather(points@, indices@));
    Some(mesh)
}

/// The loaded geometry. Its contents are fixed once `load` has returned.
pub struct GeometryStore {
    positions: Vec<Vertex>,
    land_indices: Vec<Triangle>,
    contour_indices: Vec<u32>,
    contour_mesh: Vec<Vertex>,
}

impl View for GeometryStore {
    type V = Geometry;

    closed spec fn view(&self) -> Geometry {
        Geometry {
            positions: self.positions@,
            land_indices: self.land_indices@,
            contour_indices: self.contour_indices@,
        }
    }
}

impl GeometryStore {
    #[verifier::type_invariant]
    spec fn well_formed(&self) -> bool {
        &&& self@.valid()
        &&& self.contour_mesh@ == self@.contour_mesh()
    }

    /// Decodes and validates the three geometry blobs.
    ///
    /// Succeeds exactly on blobs without a fault, and otherwise reports the
    /// first fault.
    pub fn load(positions: &[u8], land_indices: &[u8], contour_indices: &[u8]) -> (r: Result<
        GeometryStore,
        AssetError,
    >)
        ensures
            match r {
                Ok(store) => {
                    &&& asset_fault(positions@, land_indices@, contour_indices@) is None
                    &&& store@ == decode_geometry(positions@, land_indices@, contour_indices@)
                    &&& store@.valid()
                },
                Err(e) => asset_fault(positions@, land_indices@, contour_indices@) == Some(e),
            },
    {
        if positions.len() % TRIPLE_BYTES != 0 {
            return Err(AssetError::PositionsLength);
        }
        if land_indices.len() % TRIPLE_BYTES != 0 || land_indices.len() / WORD_BYTES
            > u32::MAX as usize {
            return Err(AssetError::LandIndicesLength);
        }
        if contour_indices.len() % WORD_BYTES != 0 || contour_indices.len() / WORD_BYTES
            > u32::MAX as usize {
            return Err(AssetError::ContourIndicesLength);
        }
        let points = read_vertices(positions);
        let triangles = read_triangles(land_indices);
        let contour = read_indices(contour_indices);
        if !all_triangles_in_range(&triangles, points.len()) {
            return Err(AssetError::LandIndexRange);
        }
        match gather_vertices(&points, &contour) {
            None => Err(AssetError::ContourIndexRange),
            Some(mesh) => Ok(
                GeometryStore {
                    positions: points,
                    land_indices: triangles,
                    contour_indices: contour,
                    contour_mesh: mesh,
                },
            ),
        }
    }

    pub fn positions(&self) -> (out: &Vec<Vertex>)
        ensures
            out@ == self@.positions,
    {
        &self.positions
    }

    pub fn land_indices(&self) -> (out: &Vec<Triangle>)
        ensures
            out@ == self@.land_indices,
    {
        &self.land_indices
    }

    pub fn contour_indices(&self) -> (out: &Vec<u32>)
        ensures
            out@ == self@.contour_indices,
    {
        &self.contour_indices
    }

    /// The coastline as a sequence of points, ready to be drawn as a line
    /// strip.
    pub fn contour_mesh(&self) -> (out: &Vec<Vertex>)
        ensures
            out@ == self@.contour_mesh(),
    {
        proof {
            use_type_invariant(self);
        }
        &self.contour_mesh
    }

    /// Number of indices that the land draw call consumes.
    pub fn land_index_count(&self) -> (count: u32)
        ensures
            count == 3 * self@.land_indices.len(),
    {
        proof {
            use_type_invariant(self);
        }
        (3 * self.land_indices.len()) as u32
    }

    /// Number of points that the coastline draw call consumes.
    pub fn contour_vertex_count(&self) -> (count: u32)
        ensures
            count == self@.contour_indices.len(),
    {
        proof {
            use_type_invariant(self);
        }
        self.contour_indices.len() as u32
    }
}

} // verus!
