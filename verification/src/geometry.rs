//! Ray-tracing geometry of a glTF scene: how each mesh primitive becomes the
//! triangle geometry of a bottom-level acceleration structure.
//!
//! The loader reads these plain descriptions out of the glTF document; the
//! device addresses of the uploaded glTF buffers come from the GPU.

use vstd::prelude::*;

verus! {

/// Component type of an accessor's elements (glTF `componentType`).
#[derive(Clone, Copy, Debug, PartialEq, Eq, Structural)]
pub enum DataType {
    I8,
    U8,
    I16,
    U16,
    U32,
    F32,
}

/// Shape of an accessor's elements (glTF `type`).
#[derive(Clone, Copy, Debug, PartialEq, Eq, Structural)]
pub enum Dimensions {
    Scalar,
    Vec2,
    Vec3,
    Vec4,
    Mat2,
    Mat3,
    Mat4,
}

/// The buffer view an accessor reads from.
#[derive(Clone, Copy, Debug, PartialEq, Eq, Structural)]
pub struct ViewInfo {
    /// Byte offset of the view in its buffer.
    pub offset: usize,
    /// Index of the buffer in the document.
    pub buffer: usize,
}

/// What the geometry builder reads of a glTF accessor.
#[derive(Clone, Copy, Debug, PartialEq, Eq, Structural)]
pub struct AccessorInfo {
    pub data_type: DataType,
    pub dimensions: Dimensions,
    /// Byte offset of the accessor in its view.
    pub offset: usize,
    /// Number of elements.
    pub count: usize,
    /// The view; absent for a sparse accessor without one.
    pub view: Option<ViewInfo>,
}

/// What the geometry builder reads of a glTF mesh primitive.
#[derive(Clone, Copy, Debug, PartialEq, Eq, Structural)]
pub struct PrimitiveInfo {
    /// The index accessor, if the primitive is indexed.
    pub indices: Option<AccessorInfo>,
    /// The accessor of the `POSITION` attribute, if there is one.
    pub positions: Option<AccessorInfo>,
}

/// Width of the indices of a geometry.
#[derive(Clone, Copy, Debug, PartialEq, Eq, Structural)]
pub enum IndexType {
    Uint16,
    Uint32,
}

/// Vertex format of a geometry; three 32-bit floats is the only one accepted.
#[derive(Clone, Copy, Debug, PartialEq, Eq, Structural)]
pub enum VertexFormat {
    R32G32B32Sfloat,
}

/// Triangle geometry of one primitive, as the acceleration structure build
/// takes it.
#[derive(Clone, Copy, Debug, PartialEq, Eq, Structural)]
pub struct Geometry {
    pub index_type: IndexType,
    /// Byte offset of the first index in its buffer.
    pub index_buffer_offset: u64,
    /// Device address of the buffer that holds the indices.
    pub index_buffer_address: u64,
    pub vertex_format: VertexFormat,
    /// Byte offset of the first position in its buffer.
    pub vertex_buffer_offset: u64,
    /// Device address of the buffer that holds the positions.
    pub vertex_buffer_address: u64,
    /// Bytes from one position to the next.
    pub vertex_stride: u64,
    /// Number of triangles: the index count, taken as a `u32`, divided by three.
    pub triangle_count: u32,
}

/// Why a primitive cannot be turned into ray-tracing geometry.
#[derive(Clone, Copy, Debug, PartialEq, Eq, Structural)]
pub enum PrimitiveError {
    /// The primitive has no index accessor.
    MissingIndices,
    /// The indices are neither `u16` nor `u32`.
    UnsupportedIndexType,
    /// The index accessor has no buffer view.
    IndicesWithoutView,
    /// Accessor offset plus view offset of the indices overflows.
    IndexOffsetOverflow,
    /// The indices live in a buffer that was not uploaded.
    MissingIndexBuffer,
    /// Buffer address plus offset of the indices overflows.
    IndexAddressOverflow,
    /// The primitive has no `POSITION` attribute.
    MissingPositions,
    /// The positions are not 32-bit floats.
    UnsupportedVertexFormat,
    /// The position accessor has no buffer view.
    PositionsWithoutView,
    /// Accessor offset plus view offset of the positions overflows.
    VertexOffsetOverflow,
    /// The positions live in a buffer that was not uploaded.
    MissingVertexBuffer,
    /// Buffer address plus offset of the positions overflows.
    VertexAddressOverflow,
    /// The positions are not three-component vectors.
    UnsupportedVertexDimensions,
}

/// Where an accessor's data starts, and what stands in the way.
pub enum Placement {
    /// Byte offset in the buffer, and the buffer's device address.
    At(u64, u64),
    NoView,
    OffsetOverflow,
    NoBuffer,
    AddressOverflow,
}

/// The byte offset of an accessor's first element in its buffer (accessor offset
/// plus view offset) and the device address of that buffer, given the device
/// addresses of the uploaded buffers in document order.
pub open spec fn placement(a: AccessorInfo, buffer_addresses: Seq<u64>) -> Placement {
    match a.view {
        None => Placement::NoView,
        Some(v) => {
            if a.offset + v.offset > usize::MAX {
                Placement::OffsetOverflow
            } else if v.buffer >= buffer_addresses.len() {
                Placement::NoBuffer
            } else if buffer_addresses[v.buffer as int] + a.offset + v.offset > u64::MAX {
                Placement::AddressOverflow
            } else {
                Placement::At((a.offset + v.offset) as u64, buffer_addresses[v.buffer as int])
            }
        },
    }
}

/// The index width for an index component type, if it is one the builder takes.
pub open spec fn index_type_of(t: DataType) -> Option<IndexType> {
    match t {
        DataType::U16 => Some(IndexType::Uint16),
        DataType::U32 => Some(IndexType::Uint32),
        _ => None,
    }
}

/// The geometry of a primitive, or the first reason (in the order the loader
/// checks them) why it has none.
pub open spec fn primitive_geometry(p: PrimitiveInfo, buffer_addresses: Seq<u64>) -> Result<
    Geometry,
    PrimitiveError,
> {
    match p.indices {
        None => Err(PrimitiveError::MissingIndices),
        Some(ia) => match index_type_of(ia.data_type) {
            None => Err(PrimitiveError::UnsupportedIndexType),
            Some(index_type) => match placement(ia, buffer_addresses) {
                Placement::NoView => Err(PrimitiveError::IndicesWithoutView),
                Placement::OffsetOverflow => Err(PrimitiveError::IndexOffsetOverflow),
                Placement::NoBuffer => Err(PrimitiveError::MissingIndexBuffer),
                Placement::AddressOverflow => Err(PrimitiveError::IndexAddressOverflow),
                Placement::At(index_offset, index_address) => match p.positions {
                    None => Err(PrimitiveError::MissingPositions),
                    Some(va) => if va.data_type != DataType::F32 {
                        Err(PrimitiveError::UnsupportedVertexFormat)
                    } else {
                        match placement(va, buffer_addresses) {
                            Placement::NoView => Err(PrimitiveError::PositionsWithoutView),
                            Placement::OffsetOverflow => Err(PrimitiveError::VertexOffsetOverflow),
                            Placement::NoBuffer => Err(PrimitiveError::MissingVertexBuffer),
                            Placement::AddressOverflow => Err(
                                PrimitiveError::VertexAddressOverflow,
                            ),
                            Placement::At(vertex_offset, vertex_address) => if va.dimensions
                                != Dimensions::Vec3 {
                                Err(PrimitiveError::UnsupportedVertexDimensions)
                            } else {
                                Ok(
                                    Geometry {
                                        index_type,
                                        index_buffer_offset: index_offset,
                                        index_buffer_address: index_address,
                                        vertex_format: VertexFormat::R32G32B32Sfloat,
                                        vertex_buffer_offset: vertex_offset,
                                        vertex_buffer_address: vertex_address,
                                        vertex_stride: 12,
                                        triangle_count: ((ia.count as u32) / 3) as u32,
                                    },
                                )
                            },
                        }
                    },
                },
            },
        },
    }
}

/// Computes where an accessor's data starts.
pub fn locate(a: &AccessorInfo, buffer_addresses: &Vec<u64>) -> (r: Placement)
    ensures
        r == placement(*a, buffer_addresses@),
{
    match a.view {
        None => Placement::NoView,
        Some(v) => {
            if a.offset > usize::MAX - v.offset {
                Placement::OffsetOverflow
            } else if v.buffer >= buffer_addresses.len() {
                Placement::NoBuffer
            } else {
                let offset: usize = a.offset + v.offset;
                let address: u64 = buffer_addresses[v.buffer];
                if address > u64::MAX - (offset as u64) {
                    Placement::AddressOverflow
                } else {
                    Placement::At(offset as u64, address)
                }
            }
        },
    }
}

/// The geometry of one primitive, or the first reason it has none.
fn try_primitive_geometry(p: &PrimitiveInfo, buffer_addresses: &Vec<u64>) -> (r: Result<
    Geometry,
    PrimitiveError,
>)
    ensures
        r == primitive_geometry(*p, buffer_addresses@),
{
    let ia = match p.indices {
        None => return Err(PrimitiveError::MissingIndices),
        Some(ia) => ia,
    };
    let index_type = match ia.data_type {
        DataType::U16 => IndexType::Uint16,
        DataType::U32 => IndexType::Uint32,
        _ => return Err(PrimitiveError::UnsupportedIndexType),
    };
    let (index_offset, index_address) = match locate(&ia, buffer_addresses) {
        Placement::NoView => return Err(PrimitiveError::IndicesWithoutView),
        Placement::OffsetOverflow => return Err(PrimitiveError::IndexOffsetOverflow),
        Placement::NoBuffer => return Err(PrimitiveError::MissingIndexBuffer),
        Placement::AddressOverflow => return Err(PrimitiveError::IndexAddressOverflow),
        Placement::At(o, a) => (o, a),
    };
    let va = match p.positions {
        None => return Err(PrimitiveError::MissingPositions),
        Some(va) => va,
    };
    match va.data_type {
        DataType::F32 => {},
        _ => return Err(PrimitiveError::UnsupportedVertexFormat),
    }
    let (vertex_offset, vertex_address) = match locate(&va, buffer_addresses) {
        Placement::NoView => return Err(PrimitiveError::PositionsWithoutView),
        Placement::OffsetOverflow => return Err(PrimitiveError::VertexOffsetOverflow),
        Placement::NoBuffer => return Err(PrimitiveError::MissingVertexBuffer),
        Placement::AddressOverflow => return Err(PrimitiveError::VertexAddressOverflow),
        Placement::At(o, a) => (o, a),
    };
    match va.dimensions {
        Dimensions::Vec3 => {},
        _ => return Err(PrimitiveError::UnsupportedVertexDimensions),
    }
    let count: u32 = ia.count as u32;
    Ok(
        Geometry {
            index_type,
            index_buffer_offset: index_offset,
            index_buffer_address: index_address,
            vertex_format: VertexFormat::R32G32B32Sfloat,
            vertex_buffer_offset: vertex_offset,
            vertex_buffer_address: vertex_address,
            vertex_stride: 12,
            triangle_count: count / 3,
        },
    )
}

/// What the geometry builder reads of a glTF mesh: its primitives in order.
#[derive(Debug)]
pub struct MeshInfo {
    pub primitives: Vec<PrimitiveInfo>,
}

/// The geometries of a sequence of primitives, or the error of the first one
/// that has none.
pub open spec fn primitives_geometry(ps: Seq<PrimitiveInfo>, buffer_addresses: Seq<u64>) -> Result<
    Seq<Geometry>,
    PrimitiveError,
>
    decreases ps.len(),
{
    if ps.len() == 0 {
        Ok(Seq::empty())
    } else {
        match primitives_geometry(ps.drop_last(), buffer_addresses) {
            Err(e) => Err(e),
            Ok(gs) => match primitive_geometry(ps.last(), buffer_addresses) {
                Err(e) => Err(e),
                Ok(g) => Ok(gs.push(g)),
            },
        }
    }
}

/// The geometries of every mesh, mesh by mesh, or the error of the first
/// primitive (meshes in order, primitives in order) that has none.
pub open spec fn meshes_geometry(ms: Seq<MeshInfo>, buffer_addresses: Seq<u64>) -> Result<
    Seq<Seq<Geometry>>,
    PrimitiveError,
>
    decreases ms.len(),
{
    if ms.len() == 0 {
        Ok(Seq::empty())
    } else {
        match meshes_geometry(ms.drop_last(), buffer_addresses) {
            Err(e) => Err(e),
            Ok(gss) => match primitives_geometry(ms.last().primitives@, buffer_addresses) {
                Err(e) => Err(e),
                Ok(gs) => Ok(gss.push(gs)),
            },
        }
    }
}

/// The geometries of all primitives of one mesh, or the first reason one has
/// none.
fn try_mesh_geometry(mesh: &MeshInfo, buffer_addresses: &Vec<u64>) -> (r: Result<
    Vec<Geometry>,
    PrimitiveError,
>)
    ensures
        match r {
            Ok(gs) => primitives_geometry(mesh.primitives@, buffer_addresses@) == Ok::<
                Seq<Geometry>,
                PrimitiveError,
            >(gs@),
            Err(e) => primitives_geometry(mesh.primitives@, buffer_addresses@) == Err::<
                Seq<Geometry>,
                PrimitiveError,
            >(e),
        },
{
    let mut out: Vec<Geometry> = Vec::new();
    let n = mesh.primitives.len();
    let mut i: usize = 0;
    assert(mesh.primitives@.take(0) =~= Seq::<PrimitiveInfo>::empty());
    while i < n
        invariant
            n == mesh.primitives@.len(),
            i <= n,
            primitives_geometry(mesh.primitives@.take(i as int), buffer_addresses@) == Ok::<
                Seq<Geometry>,
                PrimitiveError,
            >(out@),
        decreases n - i,
    {
        let g = try_primitive_geometry(&mesh.primitives[i], buffer_addresses);
        assert(mesh.primitives@.take(i + 1).drop_last() =~= mesh.primitives@.take(i as int));
        match g {
            Err(e) => {
                proof {
                    lemma_primitives_error_extends(mesh.primitives@, buffer_addresses@, i + 1);
                }
                return Err(e);
            },
            Ok(g) => {
                out.push(g);
            },
        }
        i = i + 1;
    }
    assert(mesh.primitives@.take(n as int) =~= mesh.primitives@);
    Ok(out)
}

/// Once a prefix of primitives fails, every longer prefix fails with the same
/// error.
proof fn lemma_primitives_error_extends(ps: Seq<PrimitiveInfo>, buffer_addresses: Seq<u64>, k: int)
    requires
        0 <= k <= ps.len(),
        primitives_geometry(ps.take(k), buffer_addresses) is Err,
    ensures
        primitives_geometry(ps, buffer_addresses) == primitives_geometry(ps.take(k), buffer_addresses),
    decreases ps.len() - k,
{
    if k < ps.len() {
        assert(ps.take(k + 1).drop_last() =~= ps.take(k));
        lemma_primitives_error_extends(ps, buffer_addresses, k + 1);
    } else {
        assert(ps.take(k) =~= ps);
    }
}

/// Once a prefix of meshes fails, every longer prefix fails with the same error.
proof fn lemma_meshes_error_extends(ms: Seq<MeshInfo>, buffer_addresses: Seq<u64>, k: int)
    requires
        0 <= k <= ms.len(),
        meshes_geometry(ms.take(k), buffer_addresses) is Err,
    ensures
        meshes_geometry(ms, buffer_addresses) == meshes_geometry(ms.take(k), buffer_addresses),
    decreases ms.len() - k,
{
    if k < ms.len() {
        assert(ms.take(k + 1).drop_last() =~= ms.take(k));
        lemma_meshes_error_extends(ms, buffer_addresses, k + 1);
    } else {
        assert(ms.take(k) =~= ms);
    }
}

/// The geometries of every mesh, or the reason the first primitive that
/// cannot be built has none.
fn try_scene_geometry(meshes: &Vec<MeshInfo>, buffer_addresses: &Vec<u64>) -> (r: Result<
    Vec<Vec<Geometry>>,
    PrimitiveError,
>)
    ensures
        match r {
            Ok(gss) => meshes_geometry(meshes@, buffer_addresses@) == Ok::<
                Seq<Seq<Geometry>>,
                PrimitiveError,
            >(gss@.map_values(|gs: Vec<Geometry>| gs@)),
            Err(e) => meshes_geometry(meshes@, buffer_addresses@) == Err::<
                Seq<Seq<Geometry>>,
                PrimitiveError,
            >(e),
        },
{
    let mut out: Vec<Vec<Geometry>> = Vec::new();
    let n = meshes.len();
    let mut i: usize = 0;
    assert(meshes@.take(0) =~= Seq::<MeshInfo>::empty());
    assert(out@.map_values(|gs: Vec<Geometry>| gs@) =~= Seq::<Seq<Geometry>>::empty());
    while i < n
        invariant
            n == meshes@.len(),
            i <= n,
            meshes_geometry(meshes@.take(i as int), buffer_addresses@) == Ok::<
                Seq<Seq<Geometry>>,
                PrimitiveError,
            >(out@.map_values(|gs: Vec<Geometry>| gs@)),
        decreases n - i,
    {
        let g = try_mesh_geometry(&meshes[i], buffer_addresses);
        assert(meshes@.take(i + 1).drop_last() =~= meshes@.take(i as int));
        assert(meshes@.take(i + 1).last() == meshes@[i as int]);
        match g {
            Err(e) => {
                proof {
                    lemma_meshes_error_extends(meshes@, buffer_addresses@, i + 1);
                }
                return Err(e);
            },
            Ok(gs) => {
                let ghost before = out@;
                out.push(gs);
                assert(out@.map_values(|gs: Vec<Geometry>| gs@) =~= before.map_values(
                    |gs: Vec<Geometry>| gs@,
                ).push(gs@));
            },
        }
        i = i + 1;
    }
    assert(meshes@.take(n as int) =~= meshes@);
    Ok(out)
}

/// Device addresses of a geometry's indices and positions for the
/// bottom-level build, which the loader takes relative to the first uploaded
/// buffer: that buffer's address plus each offset. `None` when there is no
/// buffer or an address overflows.
pub open spec fn blas_addresses(buffer_addresses: Seq<u64>, g: Geometry) -> Option<(u64, u64)> {
    if buffer_addresses.len() == 0 {
        None
    } else if buffer_addresses[0] + g.index_buffer_offset > u64::MAX || buffer_addresses[0]
        + g.vertex_buffer_offset > u64::MAX {
        None
    } else {
        Some(
            (
                (buffer_addresses[0] + g.index_buffer_offset) as u64,
                (buffer_addresses[0] + g.vertex_buffer_offset) as u64,
            ),
        )
    }
}

/// Whether the first uploaded buffer exists and its address plus each of the
/// geometry's offsets stays within 64 bits.
pub fn blas_addresses_fit(buffer_addresses: &Vec<u64>, g: &Geometry) -> (r: bool)
    ensures
        r == blas_addresses(buffer_addresses@, *g) is Some,
{
    buffer_addresses.len() > 0 && buffer_addresses[0] <= u64::MAX - g.index_buffer_offset
        && buffer_addresses[0] <= u64::MAX - g.vertex_buffer_offset
}

/// Computes the index and vertex data addresses of a geometry for the
/// bottom-level acceleration structure build.
pub fn blas_triangle_addresses(buffer_addresses: &Vec<u64>, g: &Geometry) -> (r: (u64, u64))
    requires
        blas_addresses(buffer_addresses@, *g) is Some,
    ensures
        blas_addresses(buffer_addresses@, *g) == Some(r),
{
    let base = buffer_addresses[0];
    (base + g.index_buffer_offset, base + g.vertex_buffer_offset)
}

/// The triangle counts of a mesh's geometries, in order: the primitive counts of
/// its bottom-level build.
pub fn triangle_counts(geometries: &Vec<Geometry>) -> (r: Vec<u32>)
    ensures
        r@ == geometries@.map_values(|g: Geometry| g.triangle_count),
{
    let mut out: Vec<u32> = Vec::new();
    let mut i: usize = 0;
    while i < geometries.len()
        invariant
            i <= geometries@.len(),
            out@ == geometries@.take(i as int).map_values(|g: Geometry| g.triangle_count),
        decreases geometries@.len() - i,
    {
        out.push(geometries[i].triangle_count);
        i = i + 1;
        assert(out@ =~= geometries@.take(i as int).map_values(|g: Geometry| g.triangle_count));
    }
    assert(geometries@.take(i as int) =~= geometries@);
    out
}

/// Whether a primitive can be turned into ray-tracing geometry, and if not,
/// the first reason (in the order the loader checks them) why.
pub fn primitive_check(p: &PrimitiveInfo, buffer_addresses: &Vec<u64>) -> (r: Result<(), PrimitiveError>)
    ensures
        r is Ok <==> primitive_geometry(*p, buffer_addresses@) is Ok,
        r matches Err(e) ==> primitive_geometry(*p, buffer_addresses@) == Err::<Geometry, PrimitiveError>(e),
{
    match try_primitive_geometry(p, buffer_addresses) {
        Ok(_) => Ok(()),
        Err(e) => Err(e),
    }
}

/// Turns one glTF primitive into ray-tracing triangle geometry: indices of `u16`
/// or `u32`, positions of three 32-bit floats (stride 12 bytes), offsets and
/// buffer addresses looked up through the buffer views. The primitive must be
/// one the loader takes.
pub fn geometry_for_primitive(p: &PrimitiveInfo, buffer_addresses: &Vec<u64>) -> (r: Geometry)
    requires
        primitive_geometry(*p, buffer_addresses@) is Ok,
    ensures
        primitive_geometry(*p, buffer_addresses@) == Ok::<Geometry, PrimitiveError>(r),
{
    try_primitive_geometry(p, buffer_addresses).unwrap()
}

/// Builds the geometries of all primitives of one mesh, in order; every
/// primitive must be one the loader takes.
pub fn mesh_geometry(mesh: &MeshInfo, buffer_addresses: &Vec<u64>) -> (r: Vec<Geometry>)
    requires
        primitives_geometry(mesh.primitives@, buffer_addresses@) is Ok,
    ensures
        primitives_geometry(mesh.primitives@, buffer_addresses@) == Ok::<Seq<Geometry>, PrimitiveError>(r@),
{
    try_mesh_geometry(mesh, buffer_addresses).unwrap()
}

/// Whether every primitive of every mesh can be built, and if not, the reason
/// of the first one (meshes in order, primitives in order) that cannot.
pub fn scene_check(meshes: &Vec<MeshInfo>, buffer_addresses: &Vec<u64>) -> (r: Result<(), PrimitiveError>)
    ensures
        r is Ok <==> meshes_geometry(meshes@, buffer_addresses@) is Ok,
        r matches Err(e) ==> meshes_geometry(meshes@, buffer_addresses@) == Err::<Seq<Seq<Geometry>>, PrimitiveError>(e),
{
    match try_scene_geometry(meshes, buffer_addresses) {
        Ok(_) => Ok(()),
        Err(e) => Err(e),
    }
}

/// Builds the geometries of every mesh of a document, mesh by mesh; every
/// primitive must be one the loader takes.
pub fn scene_geometry(meshes: &Vec<MeshInfo>, buffer_addresses: &Vec<u64>) -> (r: Vec<Vec<Geometry>>)
    requires
        meshes_geometry(meshes@, buffer_addresses@) is Ok,
    ensures
        meshes_geometry(meshes@, buffer_addresses@) == Ok::<Seq<Seq<Geometry>>, PrimitiveError>(
            r@.map_values(|gs: Vec<Geometry>| gs@),
        ),
{
    try_scene_geometry(meshes, buffer_addresses).unwrap()
}

/// What an accepted primitive's geometry is, in terms of its accessors: the
/// index and vertex data start at the accessor offset plus the buffer view
/// offset, in the buffer the view names; the index type follows the index
/// component type; positions are 12 bytes apart; and the triangle count is
/// the index count, taken as a `u32`, divided by three, whatever the index
/// type.
pub proof fn lemma_accepted_primitive_geometry(p: PrimitiveInfo, buffer_addresses: Seq<u64>)
    requires
        primitive_geometry(p, buffer_addresses) is Ok,
    ensures
        p.indices is Some && p.positions is Some,
        p.indices->0.view is Some && p.positions->0.view is Some,
        ({
            let g = primitive_geometry(p, buffer_addresses)->Ok_0;
            let ia = p.indices->0;
            let va = p.positions->0;
            let iv = ia.view->0;
            let vv = va.view->0;
            &&& g.triangle_count == (ia.count as u32) / 3
            &&& g.index_buffer_offset == ia.offset + iv.offset
            &&& g.index_buffer_address == buffer_addresses[iv.buffer as int]
            &&& g.vertex_buffer_offset == va.offset + vv.offset
            &&& g.vertex_buffer_address == buffer_addresses[vv.buffer as int]
            &&& g.vertex_stride == 12
            &&& g.vertex_format == VertexFormat::R32G32B32Sfloat
            &&& (ia.data_type == DataType::U16 <==> g.index_type == IndexType::Uint16)
            &&& (ia.data_type == DataType::U32 <==> g.index_type == IndexType::Uint32)
            &&& va.data_type == DataType::F32
            &&& va.dimensions == Dimensions::Vec3
        }),
{
}

} // verus!
