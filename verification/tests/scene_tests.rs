use vk_renderer::scene::{
    graph_instance_records, instance_records, instances_in_range, random_root_instance_records, records_with_offsets, root_node_instances, scene_instances, Instance,
    sole_geometry_index_buffer_offset, sole_geometry_vertex_buffer_offset, sole_item, top_level_primitive_count,
    InstanceRecord, NodeInfo, INSTANCE_CUSTOM_INDEX_AND_MASK, INSTANCE_FLAGS_CULL_DISABLE,
};
use vk_renderer::geometry::{Geometry, IndexType, VertexFormat};

fn node(index: usize, mesh: Option<usize>, children: Vec<NodeInfo>) -> NodeInfo {
    NodeInfo { node: index, mesh, children }
}

fn sample_scene() -> Vec<NodeInfo> {
    vec![
        node(10, Some(0), vec![node(11, Some(1), vec![node(12, Some(2), vec![])]), node(13, None, vec![node(14, Some(3), vec![])])]),
        node(15, Some(4), vec![]),
    ]
}

fn meshes(v: &[Instance]) -> Vec<usize> {
    v.iter().map(|i| i.mesh).collect()
}

#[test]
fn graph_order_is_children_first() {
    let order = scene_instances(&sample_scene());
    assert_eq!(meshes(&order), vec![2, 1, 3, 0, 4]);
    assert_eq!(order.iter().map(|i| i.node).collect::<Vec<_>>(), vec![12, 11, 14, 10, 15]);
    assert_eq!(scene_instances(&vec![]), Vec::<Instance>::new());
}

#[test]
fn flat_loader_ignores_children() {
    assert_eq!(meshes(&root_node_instances(&sample_scene())), vec![0, 4]);
    let flat = vec![node(0, Some(3), vec![]), node(1, None, vec![]), node(2, Some(1), vec![])];
    assert_eq!(root_node_instances(&flat), scene_instances(&flat));
}

#[test]
fn parent_after_children() {
    let n = node(0, Some(7), vec![node(1, Some(1), vec![]), node(2, Some(2), vec![])]);
    let order = scene_instances(&vec![n]);
    assert_eq!(*order.last().unwrap(), Instance { node: 0, mesh: 7 });
}

#[test]
fn records_carry_mask_flags_and_blas() {
    let inst = |node, mesh| Instance { node, mesh };
    let r = instance_records(&vec![inst(5, 1), inst(6, 0), inst(7, 1)], &vec![0xA0, 0xB0]);
    assert_eq!(INSTANCE_CUSTOM_INDEX_AND_MASK, 0xFF << 24);
    assert_eq!(INSTANCE_FLAGS_CULL_DISABLE, 0x01 << 24);
    assert_eq!(
        r,
        vec![
            InstanceRecord { node: 5, mesh: 1, custom_index_and_mask: 0xFF00_0000, sbt_offset_and_flags: 0x0100_0000, blas_address: 0xB0 },
            InstanceRecord { node: 6, mesh: 0, custom_index_and_mask: 0xFF00_0000, sbt_offset_and_flags: 0x0100_0000, blas_address: 0xA0 },
            InstanceRecord { node: 7, mesh: 1, custom_index_and_mask: 0xFF00_0000, sbt_offset_and_flags: 0x0100_0000, blas_address: 0xB0 },
        ]
    );
    assert!(instances_in_range(&vec![inst(0, 0), inst(1, 1)], 2));
    assert!(!instances_in_range(&vec![inst(0, 0), inst(1, 2)], 2));
}

#[test]
fn graph_records_follow_graph_order() {
    let r = graph_instance_records(&sample_scene(), &vec![10, 11, 12, 13, 14]);
    let meshes: Vec<usize> = r.iter().map(|x| x.mesh).collect();
    assert_eq!(meshes, vec![2, 1, 3, 0, 4]);
    assert_eq!(r[0].blas_address, 12);
    assert!(!instances_in_range(&scene_instances(&sample_scene()), 3));
}

#[test]
fn random_records_offset_in_range() {
    let roots = vec![node(0, Some(1), vec![node(1, Some(0), vec![])]), node(2, None, vec![]), node(3, Some(0), vec![])];
    for _ in 0..20 {
        let r = random_root_instance_records(&roots, &vec![0x10, 0x20]).expect("the system seeds the generator");
        assert_eq!(r.len(), 2);
        assert_eq!(r[0].mesh, 1);
        assert_eq!(r[0].blas_address, 0x20);
        assert_eq!(r[1].mesh, 0);
        assert_eq!(r[1].node, 3);
        for rec in &r {
            assert_eq!(rec.custom_index_and_mask, 0xFF00_0000);
            assert!(rec.sbt_offset_and_flags >= 0x0100_0000 && rec.sbt_offset_and_flags <= 0x0100_0004);
        }
    }
    assert!(!instances_in_range(&root_node_instances(&roots), 1));
}

#[test]
fn top_level_count_and_sole_items() {
    assert_eq!(top_level_primitive_count(5), 5);
    assert_eq!(*sole_item(&vec![42u8]), 42);
    let g = Geometry {
        index_type: IndexType::Uint32,
        index_buffer_offset: 16,
        index_buffer_address: 0,
        vertex_format: VertexFormat::R32G32B32Sfloat,
        vertex_buffer_offset: 64,
        vertex_buffer_address: 0,
        vertex_stride: 12,
        triangle_count: 1,
    };
    let meshes = vec![vec![g]];
    assert_eq!(sole_geometry_index_buffer_offset(&meshes), 16);
    assert_eq!(sole_geometry_vertex_buffer_offset(&meshes), 64);
}

#[test]
fn flat_records_take_given_offsets() {
    let roots = vec![node(0, Some(1), vec![node(1, Some(0), vec![])]), node(2, None, vec![]), node(3, Some(0), vec![])];
    let r = records_with_offsets(&roots, &vec![0x10, 0x20], &vec![4, 2]);
    assert_eq!(
        r,
        vec![
            InstanceRecord { node: 0, mesh: 1, custom_index_and_mask: 0xFF00_0000, sbt_offset_and_flags: 0x0100_0004, blas_address: 0x20 },
            InstanceRecord { node: 3, mesh: 0, custom_index_and_mask: 0xFF00_0000, sbt_offset_and_flags: 0x0100_0002, blas_address: 0x10 },
        ]
    );
}

#[test]
fn flat_records_of_no_roots() {
    assert_eq!(random_root_instance_records(&vec![], &vec![]), Ok(vec![]));
}
