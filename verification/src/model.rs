//! The acceleration structure input of the ray tracer's model loader, which
//! takes embedded glTF buffers only, accepts unindexed primitives and counts
//! triangles from the index accessors.

use vstd::prelude::*;
use crate::geometry::{
    placement, index_type_of, locate, AccessorInfo, DataType, Dimensions, IndexType, MeshInfo,
    Placement, PrimitiveError, PrimitiveInfo, VertexFormat,
};

verus! {

/// Where a glTF buffer's bytes come from.
#[derive(Clone, Copy, Debug, PartialEq, Eq, Structural)]
pub enum BufferSource {
    /// The binary chunk of a `.glb` file.
    Bin,
    /// An external or data URI.
    Uri,
}

/// Whether every buffer comes from the binary chunk, the only source the
/// loader copies from.
pub open spec fn all_embedded(sources: Seq<BufferSource>) -> bool {
    forall|k: int| 0 <= k < sources.len() ==> sources[k] == BufferSource::Bin
}

fn all_embedded_check(sources: &Vec<BufferSource>) -> (r: bool)
    ensures
        r == all_embedded(sources@),
{
    let mut i: usize = 0;
    while i < sources.len()
        invariant
            i <= sources@.len(),
            forall|k: int| 0 <= k < i ==> sources@[k] == BufferSource::Bin,
        decreases sources@.len() - i,
    {
        match sources[i] {
            BufferSource::Uri => {
                assert(sources@[i as int] == BufferSource::Uri);
                return false;
            },
            BufferSource::Bin => {},
        }
        i = i + 1;
    }
    true
}

/// Type and device address of a primitive's index data.
#[derive(Clone, Copy, Debug, PartialEq, Eq, Structural)]
pub struct IndexData {
    pub index_type: IndexType,
    pub address: u64,
}

/// Triangle geometry of one primitive for the tracer: the index data's type and
/// device address when the primitive is indexed, and the position data.
#[derive(Clone, Copy, Debug, PartialEq, Eq, Structural)]
pub struct TracerGeometry {
    /// `None` for an unindexed primitive (index type `NONE`, null address).
    pub index: Option<IndexData>,
    /// Device address of the first position.
    pub vertex_address: u64,
    pub vertex_format: VertexFormat,
    pub vertex_stride: u64,
}

/// The tracer geometry of a primitive, or the first reason why it has none.
pub open spec fn tracer_geometry_spec(p: PrimitiveInfo, buffer_addresses: Seq<u64>) -> Result<
    TracerGeometry,
    PrimitiveError,
> {
    let index: Result<Option<IndexData>, PrimitiveError> = match p.indices {
        None => Ok(None),
        Some(ia) => match index_type_of(ia.data_type) {
            None => Err(PrimitiveError::UnsupportedIndexType),
            Some(t) => match placement(ia, buffer_addresses) {
                Placement::NoView => Err(PrimitiveError::IndicesWithoutView),
                Placement::OffsetOverflow => Err(PrimitiveError::IndexOffsetOverflow),
                Placement::NoBuffer => Err(PrimitiveError::MissingIndexBuffer),
                Placement::AddressOverflow => Err(PrimitiveError::IndexAddressOverflow),
                Placement::At(o, a) => Ok(Some(IndexData { index_type: t, address: (a + o) as u64 })),
            },
        },
    };
    match index {
        Err(e) => Err(e),
        Ok(index) => match p.positions {
            None => Err(PrimitiveError::MissingPositions),
            Some(va) => if va.data_type != DataType::F32 {
                Err(PrimitiveError::UnsupportedVertexFormat)
            } else {
                match placement(va, buffer_addresses) {
                    Placement::NoView => Err(PrimitiveError::PositionsWithoutView),
                    Placement::OffsetOverflow => Err(PrimitiveError::VertexOffsetOverflow),
                    Placement::NoBuffer => Err(PrimitiveError::MissingVertexBuffer),
                    Placement::AddressOverflow => Err(PrimitiveError::VertexAddressOverflow),
                    Placement::At(o, a) => if va.dimensions != Dimensions::Vec3 {
                        Err(PrimitiveError::UnsupportedVertexDimensions)
                    } else {
                        Ok(
                            TracerGeometry {
                                index,
                                vertex_address: (a + o) as u64,
                                vertex_format: VertexFormat::R32G32B32Sfloat,
                                vertex_stride: 12,
                            },
                        )
                    },
                }
            },
        },
    }
}

/// The tracer geometry of one primitive, or the first reason it has none.
fn try_tracer_geometry(p: &PrimitiveInfo, buffer_addresses: &Vec<u64>) -> (r: Result<
    TracerGeometry,
    PrimitiveError,
>)
    ensures
        r == tracer_geometry_spec(*p, buffer_addresses@),
{
    let index = match p.indices {
        None => None,
        Some(ia) => {
            let t = match ia.data_type {
                DataType::U16 => IndexType::Uint16,
                DataType::U32 => IndexType::Uint32,
                _ => return Err(PrimitiveError::UnsupportedIndexType),
            };
            match locate(&ia, buffer_addresses) {
                Placement::NoView => return Err(PrimitiveError::IndicesWithoutView),
                Placement::OffsetOverflow => return Err(PrimitiveError::IndexOffsetOverflow),
                Placement::NoBuffer => return Err(PrimitiveError::MissingIndexBuffer),
                Placement::AddressOverflow => return Err(PrimitiveError::IndexAddressOverflow),
                Placement::At(o, a) => Some(IndexData { index_type: t, address: a + o }),
            }
        },
    };
    let va = match p.positions {
        None => return Err(PrimitiveError::MissingPositions),
        Some(va) => va,
    };
    match va.data_type {
        DataType::F32 => {},
        _ => return Err(PrimitiveError::UnsupportedVertexFormat),
    }
    let vertex_address = match locate(&va, buffer_addresses) {
        Placement::NoView => return Err(PrimitiveError::PositionsWithoutView),
        Placement::OffsetOverflow => return Err(PrimitiveError::VertexOffsetOverflow),
        Placement::NoBuffer => return Err(PrimitiveError::MissingVertexBuffer),
        Placement::AddressOverflow => return Err(PrimitiveError::VertexAddressOverflow),
        Placement::At(o, a) => a + o,
    };
    match va.dimensions {
        Dimensions::Vec3 => {},
        _ => return Err(PrimitiveError::UnsupportedVertexDimensions),
    }
    Ok(
        TracerGeometry {
            index,
            vertex_address,
            vertex_format: VertexFormat::R32G32B32Sfloat,
            vertex_stride: 12,
        },
    )
}

/// Every primitive of every mesh is indexed.
pub open spec fn all_indexed(meshes: Seq<MeshInfo>) -> bool {
    forall|m: int, k: int|
        0 <= m < meshes.len() && 0 <= k < meshes[m].primitives@.len() ==> (
        #[trigger] meshes[m].primitives@[k]).indices is Some
}

/// The triangle count the tracer records for a model: each fold over a mesh's
/// primitives keeps only the last primitive's index count divided by three,
/// and the fold over the meshes keeps only the last mesh's, so the count is the
/// last primitive of the last mesh's (0 without meshes, or when that mesh has no
/// primitives), taken as a `u32`.
pub open spec fn model_triangle_count_spec(meshes: Seq<MeshInfo>) -> u32 {
    if meshes.len() == 0 {
        0
    } else {
        let ps = meshes.last().primitives@;
        if ps.len() == 0 {
            0
        } else {
            ((ps.last().indices->0.count / 3) as usize) as u32
        }
    }
}

/// Computes the tracer's model triangle count of a model whose primitives are
/// all indexed.
pub fn model_triangle_count(meshes: &Vec<MeshInfo>) -> (r: u32)
    requires
        all_indexed(meshes@),
    ensures
        r == model_triangle_count_spec(meshes@),
{
    let mut acc: usize = 0;
    let mut m: usize = 0;
    while m < meshes.len()
        invariant
            m <= meshes@.len(),
            all_indexed(meshes@),
            m == 0 ==> acc == 0,
            m > 0 ==> acc == (if meshes@[m - 1].primitives@.len() == 0 {
                0
            } else {
                meshes@[m - 1].primitives@.last().indices->0.count / 3
            }),
        decreases meshes@.len() - m,
    {
        let ps = &meshes[m].primitives;
        let mut inner: usize = 0;
        let mut k: usize = 0;
        while k < ps.len()
            invariant
                m < meshes@.len(),
                all_indexed(meshes@),
                ps@ == meshes@[m as int].primitives@,
                k <= ps@.len(),
                forall|j: int| 0 <= j < k ==> (#[trigger] ps@[j]).indices is Some,
                k > 0 ==> inner == ps@[k - 1].indices->0.count / 3,
                k == 0 ==> inner == 0,
            decreases ps@.len() - k,
        {
            assert((meshes@[m as int].primitives@[k as int]).indices is Some);
            match &ps[k].indices {
                None => {},
                Some(a) => {
                    inner = a.count / 3;
                },
            }
            k = k + 1;
        }
        acc = inner;
        m = m + 1;
    }
    acc as u32
}

/// The tracer geometries of a sequence of primitives, or the error of the
/// first one that has none.
pub open spec fn tracer_primitives_spec(ps: Seq<PrimitiveInfo>, buffer_addresses: Seq<u64>) -> Result<
    Seq<TracerGeometry>,
    PrimitiveError,
>
    decreases ps.len(),
{
    if ps.len() == 0 {
        Ok(Seq::empty())
    } else {
        match tracer_primitives_spec(ps.drop_last(), buffer_addresses) {
            Err(e) => Err(e),
            Ok(gs) => match tracer_geometry_spec(ps.last(), buffer_addresses) {
                Err(e) => Err(e),
                Ok(g) => Ok(gs.push(g)),
            },
        }
    }
}

/// The tracer geometries of all meshes, flattened mesh after mesh, or the error
/// of the first primitive that has none.
pub open spec fn model_geometries_spec(ms: Seq<MeshInfo>, buffer_addresses: Seq<u64>) -> Result<
    Seq<TracerGeometry>,
    PrimitiveError,
>
    decreases ms.len(),
{
    if ms.len() == 0 {
        Ok(Seq::empty())
    } else {
        match model_geometries_spec(ms.drop_last(), buffer_addresses) {
            Err(e) => Err(e),
            Ok(gs) => match tracer_primitives_spec(ms.last().primitives@, buffer_addresses) {
                Err(e) => Err(e),
                Ok(g2) => Ok(gs + g2),
            },
        }
    }
}

/// Once a prefix of primitives fails, every longer prefix fails the same way.
proof fn lemma_tracer_primitives_error_extends(ps: Seq<PrimitiveInfo>, b: Seq<u64>, k: int)
    requires
        0 <= k <= ps.len(),
        tracer_primitives_spec(ps.take(k), b) is Err,
    ensures
        tracer_primitives_spec(ps, b) == tracer_primitives_spec(ps.take(k), b),
    decreases ps.len() - k,
{
    if k < ps.len() {
        assert(ps.take(k + 1).drop_last() =~= ps.take(k));
        lemma_tracer_primitives_error_extends(ps, b, k + 1);
    } else {
        assert(ps.take(k) =~= ps);
    }
}

/// Once a prefix of meshes fails, every longer prefix fails the same way.
proof fn lemma_model_error_extends(ms: Seq<MeshInfo>, b: Seq<u64>, k: int)
    requires
        0 <= k <= ms.len(),
        model_geometries_spec(ms.take(k), b) is Err,
    ensures
        model_geometries_spec(ms, b) == model_geometries_spec(ms.take(k), b),
    decreases ms.len() - k,
{
    if k < ms.len() {
        assert(ms.take(k + 1).drop_last() =~= ms.take(k));
        lemma_model_error_extends(ms, b, k + 1);
    } else {
        assert(ms.take(k) =~= ms);
    }
}

/// Appends the tracer geometries of one mesh's primitives to `out`.
fn append_mesh_geometries(mesh: &MeshInfo, buffer_addresses: &Vec<u64>, out: &mut Vec<TracerGeometry>) -> (r: Result<(), PrimitiveError>)
    ensures
        match tracer_primitives_spec(mesh.primitives@, buffer_addresses@) {
            Ok(gs) => r is Ok && final(out)@ == old(out)@ + gs,
            Err(e) => r == Err::<(), PrimitiveError>(e),
        },
{
    let ghost start = out@;
    let n = mesh.primitives.len();
    let mut i: usize = 0;
    assert(mesh.primitives@.take(0) =~= Seq::<PrimitiveInfo>::empty());
    assert(start + Seq::<TracerGeometry>::empty() =~= start);
    while i < n
        invariant
            n == mesh.primitives@.len(),
            i <= n,
            tracer_primitives_spec(mesh.primitives@.take(i as int), buffer_addresses@) matches Ok(gs)
                && out@ == start + gs,
        decreases n - i,
    {
        let g = try_tracer_geometry(&mesh.primitives[i], buffer_addresses);
        assert(mesh.primitives@.take(i + 1).drop_last() =~= mesh.primitives@.take(i as int));
        match g {
            Err(e) => {
                proof {
                    lemma_tracer_primitives_error_extends(mesh.primitives@, buffer_addresses@, i + 1);
                }
                return Err(e);
            },
            Ok(g) => {
                let ghost before = out@;
                out.push(g);
                proof {
                    let gs = tracer_primitives_spec(mesh.primitives@.take(i as int), buffer_addresses@)->Ok_0;
                    assert(before == start + gs);
                    assert(out@ =~= start + gs.push(g));
                }
            },
        }
        i = i + 1;
    }
    assert(mesh.primitives@.take(n as int) =~= mesh.primitives@);
    Ok(())
}

/// The tracer geometries of every primitive of every mesh, or the reason the
/// first one that cannot be built has none.
fn try_model_geometries(meshes: &Vec<MeshInfo>, buffer_addresses: &Vec<u64>) -> (r: Result<
    Vec<TracerGeometry>,
    PrimitiveError,
>)
    ensures
        match r {
            Ok(gs) => model_geometries_spec(meshes@, buffer_addresses@) == Ok::<
                Seq<TracerGeometry>,
                PrimitiveError,
            >(gs@),
            Err(e) => model_geometries_spec(meshes@, buffer_addresses@) == Err::<
                Seq<TracerGeometry>,
                PrimitiveError,
            >(e),
        },
{
    let mut out: Vec<TracerGeometry> = Vec::new();
    let n = meshes.len();
    let mut i: usize = 0;
    assert(meshes@.take(0) =~= Seq::<MeshInfo>::empty());
    while i < n
        invariant
            n == meshes@.len(),
            i <= n,
            model_geometries_spec(meshes@.take(i as int), buffer_addresses@) == Ok::<
                Seq<TracerGeometry>,
                PrimitiveError,
            >(out@),
        decreases n - i,
    {
        assert(meshes@.take(i + 1).drop_last() =~= meshes@.take(i as int));
        assert(meshes@.take(i + 1).last() == meshes@[i as int]);
        match append_mesh_geometries(&meshes[i], buffer_addresses, &mut out) {
            Err(e) => {
                proof {
                    lemma_model_error_extends(meshes@, buffer_addresses@, i + 1);
                }
                return Err(e);
            },
            Ok(()) => {},
        }
        i = i + 1;
    }
    assert(meshes@.take(n as int) =~= meshes@);
    Ok(out)
}

/// Builds the tracer geometry of one primitive the loader takes.
pub fn tracer_geometry(p: &PrimitiveInfo, buffer_addresses: &Vec<u64>) -> (r: TracerGeometry)
    requires
        tracer_geometry_spec(*p, buffer_addresses@) is Ok,
    ensures
        tracer_geometry_spec(*p, buffer_addresses@) == Ok::<TracerGeometry, PrimitiveError>(r),
{
    try_tracer_geometry(p, buffer_addresses).unwrap()
}

/// Builds the tracer geometries of every primitive of every mesh, in order;
/// every primitive must be one the loader takes.
pub fn model_geometries(meshes: &Vec<MeshInfo>, buffer_addresses: &Vec<u64>) -> (r: Vec<TracerGeometry>)
    requires
        model_geometries_spec(meshes@, buffer_addresses@) is Ok,
    ensures
        model_geometries_spec(meshes@, buffer_addresses@) == Ok::<Seq<TracerGeometry>, PrimitiveError>(r@),
{
    try_model_geometries(meshes, buffer_addresses).unwrap()
}

/// Why the tracer cannot load a model.
#[derive(Clone, Copy, Debug, PartialEq, Eq, Structural)]
pub enum ModelError {
    /// A buffer is not in the binary chunk.
    ExternalBuffer,
    /// A primitive cannot be turned into geometry.
    Primitive(PrimitiveError),
    /// A primitive has no indices, so its triangles cannot be counted.
    UnindexedPrimitive,
}

/// Whether the tracer loads a model, and if not, the first obstacle in the
/// order it meets them: its buffers, then its primitives mesh by mesh, then
/// the triangle count.
pub open spec fn model_check_spec(sources: Seq<BufferSource>, meshes: Seq<MeshInfo>, buffer_addresses: Seq<u64>) -> Result<(), ModelError> {
    if !all_embedded(sources) {
        Err(ModelError::ExternalBuffer)
    } else {
        match model_geometries_spec(meshes, buffer_addresses) {
            Err(e) => Err(ModelError::Primitive(e)),
            Ok(_) => if all_indexed(meshes) {
                Ok(())
            } else {
                Err(ModelError::UnindexedPrimitive)
            },
        }
    }
}

fn all_indexed_check(meshes: &Vec<MeshInfo>) -> (r: bool)
    ensures
        r == all_indexed(meshes@),
{
    let mut m: usize = 0;
    while m < meshes.len()
        invariant
            m <= meshes@.len(),
            forall|a: int, k: int|
                0 <= a < m && 0 <= k < meshes@[a].primitives@.len() ==> (
                #[trigger] meshes@[a].primitives@[k]).indices is Some,
        decreases meshes@.len() - m,
    {
        let ps = &meshes[m].primitives;
        let mut k: usize = 0;
        while k < ps.len()
            invariant
                m < meshes@.len(),
                ps@ == meshes@[m as int].primitives@,
                k <= ps@.len(),
                forall|a: int, j: int|
                    0 <= a < m && 0 <= j < meshes@[a].primitives@.len() ==> (
                    #[trigger] meshes@[a].primitives@[j]).indices is Some,
                forall|j: int| 0 <= j < k ==> (#[trigger] ps@[j]).indices is Some,
            decreases ps@.len() - k,
        {
            if ps[k].indices.is_none() {
                assert((meshes@[m as int].primitives@[k as int]).indices is None);
                return false;
            }
            k = k + 1;
        }
        m = m + 1;
    }
    true
}

/// Checks whether the tracer loads a model.
pub fn model_check(sources: &Vec<BufferSource>, meshes: &Vec<MeshInfo>, buffer_addresses: &Vec<u64>) -> (r: Result<(), ModelError>)
    ensures
        r == model_check_spec(sources@, meshes@, buffer_addresses@),
{
    if !all_embedded_check(sources) {
        return Err(ModelError::ExternalBuffer);
    }
    match try_model_geometries(meshes, buffer_addresses) {
        Err(e) => return Err(ModelError::Primitive(e)),
        Ok(_) => {},
    }
    if all_indexed_check(meshes) {
        Ok(())
    } else {
        Err(ModelError::UnindexedPrimitive)
    }
}

/// The acceleration structure input of a model the tracer loads: its
/// geometries, flattened mesh after mesh, and its recorded triangle count.
pub fn model_input(sources: &Vec<BufferSource>, meshes: &Vec<MeshInfo>, buffer_addresses: &Vec<u64>) -> (r: (Vec<TracerGeometry>, u32))
    requires
        model_check_spec(sources@, meshes@, buffer_addresses@) is Ok,
    ensures
        model_geometries_spec(meshes@, buffer_addresses@) == Ok::<Seq<TracerGeometry>, PrimitiveError>(r.0@),
        r.1 == model_triangle_count_spec(meshes@),
{
    let geometries = model_geometries(meshes, buffer_addresses);
    let count = model_triangle_count(meshes);
    (geometries, count)
}

/// What an accepted primitive's tracer geometry is, in terms of its
/// accessors: the vertex data's device address is the address of the buffer
/// the position view names plus the accessor offset plus the view offset;
/// an indexed primitive's index data is found the same way and typed by its
/// component type; an unindexed one has none.
pub proof fn lemma_accepted_tracer_geometry(p: PrimitiveInfo, buffer_addresses: Seq<u64>)
    requires
        tracer_geometry_spec(p, buffer_addresses) is Ok,
    ensures
        p.positions is Some && p.positions->0.view is Some,
        ({
            let g = tracer_geometry_spec(p, buffer_addresses)->Ok_0;
            let va = p.positions->0;
            let vv = va.view->0;
            &&& g.vertex_address == buffer_addresses[vv.buffer as int] + va.offset + vv.offset
            &&& g.vertex_stride == 12
            &&& g.vertex_format == VertexFormat::R32G32B32Sfloat
            &&& va.data_type == DataType::F32
            &&& va.dimensions == Dimensions::Vec3
            &&& (p.indices is None <==> g.index is None)
            &&& (p.indices is Some ==> {
                let ia = p.indices->0;
                let d = g.index->0;
                &&& ia.view is Some
                &&& g.index is Some
                &&& d.address == buffer_addresses[ia.view->0.buffer as int] + ia.offset
                    + ia.view->0.offset
                &&& (ia.data_type == DataType::U16 <==> d.index_type == IndexType::Uint16)
                &&& (ia.data_type == DataType::U32 <==> d.index_type == IndexType::Uint32)
            })
        }),
{
}

} // verus!
