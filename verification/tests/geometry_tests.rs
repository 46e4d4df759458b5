use vk_renderer::geometry::{
    blas_addresses_fit, blas_triangle_addresses, geometry_for_primitive, mesh_geometry, primitive_check, scene_check,
    scene_geometry, triangle_counts,
    AccessorInfo, DataType, Dimensions, Geometry, IndexType, MeshInfo, PrimitiveError, PrimitiveInfo,
    VertexFormat, ViewInfo,
};

fn accessor(data_type: DataType, dimensions: Dimensions, offset: usize, count: usize, view_offset: usize, buffer: usize) -> AccessorInfo {
    AccessorInfo { data_type, dimensions, offset, count, view: Some(ViewInfo { offset: view_offset, buffer }) }
}

fn good_primitive() -> PrimitiveInfo {
    PrimitiveInfo {
        indices: Some(accessor(DataType::U16, Dimensions::Scalar, 4, 36, 100, 0)),
        positions: Some(accessor(DataType::F32, Dimensions::Vec3, 8, 24, 200, 1)),
    }
}

#[test]
fn builds_box_geometry() {
    let g = geometry_for_primitive(&good_primitive(), &vec![0x1000, 0x8000]);
    assert_eq!(
        g,
        Geometry {
            index_type: IndexType::Uint16,
            index_buffer_offset: 104,
            index_buffer_address: 0x1000,
            vertex_format: VertexFormat::R32G32B32Sfloat,
            vertex_buffer_offset: 208,
            vertex_buffer_address: 0x8000,
            vertex_stride: 12,
            triangle_count: 12,
        }
    );
}

#[test]
fn u32_indices_and_rounding_down() {
    let mut p = good_primitive();
    p.indices = Some(accessor(DataType::U32, Dimensions::Scalar, 0, 7, 0, 0));
    assert_eq!(primitive_check(&p, &vec![1, 2]), Ok(()));
    let g = geometry_for_primitive(&p, &vec![1, 2]);
    assert_eq!(g.index_type, IndexType::Uint32);
    assert_eq!(g.triangle_count, 2);
}

#[test]
fn every_primitive_error() {
    let addrs = vec![0x1000u64, 0x8000];
    let mut p = good_primitive();
    p.indices = None;
    assert_eq!(primitive_check(&p, &addrs), Err(PrimitiveError::MissingIndices));

    let mut p = good_primitive();
    p.indices = Some(accessor(DataType::U8, Dimensions::Scalar, 0, 3, 0, 0));
    assert_eq!(primitive_check(&p, &addrs), Err(PrimitiveError::UnsupportedIndexType));

    let mut p = good_primitive();
    p.indices = Some(AccessorInfo { view: None, ..accessor(DataType::U16, Dimensions::Scalar, 0, 3, 0, 0) });
    assert_eq!(primitive_check(&p, &addrs), Err(PrimitiveError::IndicesWithoutView));

    let mut p = good_primitive();
    p.indices = Some(accessor(DataType::U16, Dimensions::Scalar, usize::MAX, 3, 1, 0));
    assert_eq!(primitive_check(&p, &addrs), Err(PrimitiveError::IndexOffsetOverflow));

    let mut p = good_primitive();
    p.indices = Some(accessor(DataType::U16, Dimensions::Scalar, 0, 3, 0, 5));
    assert_eq!(primitive_check(&p, &addrs), Err(PrimitiveError::MissingIndexBuffer));

    let p = good_primitive();
    assert_eq!(primitive_check(&p, &vec![u64::MAX, 0]), Err(PrimitiveError::IndexAddressOverflow));

    let mut p = good_primitive();
    p.positions = None;
    assert_eq!(primitive_check(&p, &addrs), Err(PrimitiveError::MissingPositions));

    let mut p = good_primitive();
    p.positions = Some(accessor(DataType::U16, Dimensions::Vec3, 0, 3, 0, 1));
    assert_eq!(primitive_check(&p, &addrs), Err(PrimitiveError::UnsupportedVertexFormat));

    let mut p = good_primitive();
    p.positions = Some(AccessorInfo { view: None, ..accessor(DataType::F32, Dimensions::Vec3, 0, 3, 0, 1) });
    assert_eq!(primitive_check(&p, &addrs), Err(PrimitiveError::PositionsWithoutView));

    let mut p = good_primitive();
    p.positions = Some(accessor(DataType::F32, Dimensions::Vec3, usize::MAX, 3, 1, 1));
    assert_eq!(primitive_check(&p, &addrs), Err(PrimitiveError::VertexOffsetOverflow));

    let mut p = good_primitive();
    p.positions = Some(accessor(DataType::F32, Dimensions::Vec3, 0, 3, 0, 2));
    assert_eq!(primitive_check(&p, &addrs), Err(PrimitiveError::MissingVertexBuffer));

    let p = good_primitive();
    assert_eq!(primitive_check(&p, &vec![0, u64::MAX - 1]), Err(PrimitiveError::VertexAddressOverflow));

    let mut p = good_primitive();
    p.positions = Some(accessor(DataType::F32, Dimensions::Vec2, 0, 3, 0, 1));
    assert_eq!(primitive_check(&p, &addrs), Err(PrimitiveError::UnsupportedVertexDimensions));
}

#[test]
fn first_error_in_document_order_wins() {
    let mut bad = good_primitive();
    bad.positions = None;
    let mut worse = good_primitive();
    worse.indices = None;
    let meshes = vec![
        MeshInfo { primitives: vec![good_primitive()] },
        MeshInfo { primitives: vec![good_primitive(), bad, worse] },
    ];
    assert_eq!(scene_check(&meshes, &vec![1, 2]), Err(PrimitiveError::MissingPositions));
}

#[test]
fn scene_geometry_mesh_by_mesh() {
    let meshes = vec![
        MeshInfo { primitives: vec![good_primitive(), good_primitive()] },
        MeshInfo { primitives: vec![] },
        MeshInfo { primitives: vec![good_primitive()] },
    ];
    assert_eq!(scene_check(&meshes, &vec![10, 20]), Ok(()));
    let gss = scene_geometry(&meshes, &vec![10, 20]);
    assert_eq!(gss.len(), 3);
    assert_eq!(gss[0].len(), 2);
    assert_eq!(gss[1].len(), 0);
    assert_eq!(gss[2][0].index_buffer_address, 10);
    assert_eq!(mesh_geometry(&meshes[0], &vec![10, 20]), gss[0]);
    assert_eq!(triangle_counts(&gss[0]), vec![12, 12]);
}

#[test]
fn blas_addresses_use_first_buffer() {
    let g = geometry_for_primitive(&good_primitive(), &vec![0x1000, 0x8000]);
    assert!(blas_addresses_fit(&vec![0x1000, 0x8000], &g));
    assert_eq!(blas_triangle_addresses(&vec![0x1000, 0x8000], &g), (0x1000 + 104, 0x1000 + 208));
    assert!(!blas_addresses_fit(&vec![], &g));
    assert!(!blas_addresses_fit(&vec![u64::MAX - 150], &g));
}
