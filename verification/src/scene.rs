//! The scene graph side of a glTF scene: which node instances the top-level
//! acceleration structure holds, in which order, and what each instance record
//! says.

use vstd::prelude::*;
use crate::geometry::Geometry;
use rand::rngs::SmallRng;

verus! {

/// What the instance builder reads of a glTF node: its index in the document,
/// the mesh it places, if any, and its children in order.
#[derive(Debug)]
pub struct NodeInfo {
    pub node: usize,
    pub mesh: Option<usize>,
    pub children: Vec<NodeInfo>,
}

/// One placement of a mesh by a node.
#[derive(Clone, Copy, Debug, PartialEq, Eq, Structural)]
pub struct Instance {
    /// The node that places the mesh (its transform is the instance's).
    pub node: usize,
    pub mesh: usize,
}

/// The mesh a node places itself, as a sequence of zero or one instance.
pub open spec fn own_instance(n: NodeInfo) -> Seq<Instance> {
    match n.mesh {
        Some(m) => seq![Instance { node: n.node, mesh: m }],
        None => Seq::empty(),
    }
}

/// The meshes instanced by a node's subtree, in the order the loader emits
/// them: every child's subtree first, children in order, then the node itself.
pub open spec fn subtree_instances(n: NodeInfo) -> Seq<Instance>
    decreases n, n.children@.len() + 1,
{
    children_instances(n, n.children@.len() as int) + own_instance(n)
}

/// The meshes instanced by the subtrees of the first `k` children of `n`.
pub open spec fn children_instances(n: NodeInfo, k: int) -> Seq<Instance>
    decreases n, k,
{
    if k <= 0 || k > n.children@.len() {
        Seq::empty()
    } else {
        children_instances(n, k - 1) + subtree_instances(n.children@[k - 1])
    }
}

/// The meshes instanced by a sequence of scene roots, root after root.
pub open spec fn forest_instances(roots: Seq<NodeInfo>) -> Seq<Instance>
    decreases roots.len(),
{
    if roots.len() == 0 {
        Seq::empty()
    } else {
        forest_instances(roots.drop_last()) + subtree_instances(roots.last())
    }
}

/// Appends to `out` the meshes instanced by `node`'s subtree.
fn collect_subtree(node: &NodeInfo, out: &mut Vec<Instance>)
    ensures
        final(out)@ == old(out)@ + subtree_instances(*node),
    decreases node,
{
    let ghost start = out@;
    let n = node.children.len();
    let mut i: usize = 0;
    assert(start + children_instances(*node, 0) =~= start);
    while i < n
        invariant
            n == node.children@.len(),
            i <= n,
            out@ == start + children_instances(*node, i as int),
        decreases n - i,
    {
        collect_subtree(&node.children[i], out);
        i = i + 1;
        assert(out@ =~= start + children_instances(*node, i as int));
    }
    match node.mesh {
        Some(m) => out.push(Instance { node: node.node, mesh: m }),
        None => {},
    }
    assert(out@ =~= start + subtree_instances(*node));
}

/// The instances of a scene's nodes, in the order the top-level acceleration
/// structure lists them: for each root in order, its subtree children-first.
pub fn scene_instances(roots: &Vec<NodeInfo>) -> (r: Vec<Instance>)
    ensures
        r@ == forest_instances(roots@),
{
    let mut out: Vec<Instance> = Vec::new();
    let n = roots.len();
    let mut i: usize = 0;
    assert(roots@.take(0) =~= Seq::<NodeInfo>::empty());
    while i < n
        invariant
            n == roots@.len(),
            i <= n,
            out@ == forest_instances(roots@.take(i as int)),
        decreases n - i,
    {
        collect_subtree(&roots[i], &mut out);
        assert(roots@.take(i + 1).drop_last() =~= roots@.take(i as int));
        i = i + 1;
    }
    assert(roots@.take(n as int) =~= roots@);
    out
}

/// The meshes that a scene's root nodes place themselves, root by root, without
/// looking at their children (the flat variant of the loader).
pub open spec fn root_instances(roots: Seq<NodeInfo>) -> Seq<Instance>
    decreases roots.len(),
{
    if roots.len() == 0 {
        Seq::empty()
    } else {
        root_instances(roots.drop_last()) + own_instance(roots.last())
    }
}

/// The instances the scene's root nodes place, ignoring their children.
pub fn root_node_instances(roots: &Vec<NodeInfo>) -> (r: Vec<Instance>)
    ensures
        r@ == root_instances(roots@),
{
    let mut out: Vec<Instance> = Vec::new();
    let n = roots.len();
    let mut i: usize = 0;
    assert(roots@.take(0) =~= Seq::<NodeInfo>::empty());
    while i < n
        invariant
            n == roots@.len(),
            i <= n,
            out@ == root_instances(roots@.take(i as int)),
        decreases n - i,
    {
        assert(roots@.take(i + 1).drop_last() =~= roots@.take(i as int));
        assert(roots@.take(i + 1).last() == roots@[i as int]);
        match roots[i].mesh {
            Some(m) => out.push(Instance { node: roots[i].node, mesh: m }),
            None => {},
        }
        i = i + 1;
        assert(out@ =~= root_instances(roots@.take(i as int)));
    }
    assert(roots@.take(n as int) =~= roots@);
    out
}

/// `instance_custom_index_and_mask` of every instance: custom index 0, visible
/// to every ray mask (mask byte `0xFF` in the top eight bits).
pub const INSTANCE_CUSTOM_INDEX_AND_MASK: u32 = 0xFF00_0000u32;

/// The instance flag `TRIANGLE_FACING_CULL_DISABLE`, placed in the top eight
/// bits of `instance_shader_binding_table_record_offset_and_flags`.
pub const INSTANCE_FLAGS_CULL_DISABLE: u32 = 0x0100_0000u32;

/// What a top-level instance record holds besides its transform.
#[derive(Clone, Copy, Debug, PartialEq, Eq, Structural)]
pub struct InstanceRecord {
    /// The node whose transform places the instance.
    pub node: usize,
    /// The mesh instanced.
    pub mesh: usize,
    pub custom_index_and_mask: u32,
    /// Shader binding table record offset (low 24 bits) and instance flags.
    pub sbt_offset_and_flags: u32,
    /// Device address of the mesh's bottom-level acceleration structure.
    pub blas_address: u64,
}

/// The record of an instance whose mesh's bottom-level structure lives at
/// `blas_address`, with hit group record offset `sbt_offset`.
pub open spec fn record_for(inst: Instance, blas_address: u64, sbt_offset: u32) -> InstanceRecord {
    InstanceRecord {
        node: inst.node,
        mesh: inst.mesh,
        custom_index_and_mask: INSTANCE_CUSTOM_INDEX_AND_MASK,
        sbt_offset_and_flags: (sbt_offset + INSTANCE_FLAGS_CULL_DISABLE) as u32,
        blas_address,
    }
}

/// Every instanced mesh has a built bottom-level structure.
pub open spec fn meshes_in_range(instances: Seq<Instance>, mesh_count: nat) -> bool {
    forall|i: int| 0 <= i < instances.len() ==> #[trigger] instances[i].mesh < mesh_count
}

/// Whether every instanced mesh has a bottom-level structure, among
/// `mesh_count` built ones.
pub fn instances_in_range(instances: &Vec<Instance>, mesh_count: usize) -> (r: bool)
    ensures
        r == meshes_in_range(instances@, mesh_count as nat),
{
    let mut i: usize = 0;
    while i < instances.len()
        invariant
            i <= instances@.len(),
            forall|k: int| 0 <= k < i ==> #[trigger] instances@[k].mesh < mesh_count,
        decreases instances@.len() - i,
    {
        if instances[i].mesh >= mesh_count {
            assert(instances@[i as int].mesh >= mesh_count);
            return false;
        }
        i = i + 1;
    }
    true
}

/// The instance records of a list of instances, in order, all with shader
/// binding table offset 0. Every instanced mesh must have a bottom-level
/// structure.
pub fn instance_records(instances: &Vec<Instance>, blas_addresses: &Vec<u64>) -> (r: Vec<InstanceRecord>)
    requires
        meshes_in_range(instances@, blas_addresses@.len()),
    ensures
        r@.len() == instances@.len(),
        forall|i: int|
            0 <= i < instances@.len() ==> #[trigger] r@[i] == record_for(
                instances@[i],
                blas_addresses@[instances@[i].mesh as int],
                0,
            ),
{
    let mut out: Vec<InstanceRecord> = Vec::new();
    let mut i: usize = 0;
    while i < instances.len()
        invariant
            i <= instances@.len(),
            meshes_in_range(instances@, blas_addresses@.len()),
            out@.len() == i,
            forall|j: int|
                0 <= j < i ==> #[trigger] out@[j] == record_for(
                    instances@[j],
                    blas_addresses@[instances@[j].mesh as int],
                    0,
                ),
        decreases instances@.len() - i,
    {
        let inst = instances[i];
        assert(instances@[i as int].mesh < blas_addresses@.len());
        out.push(
            InstanceRecord {
                node: inst.node,
                mesh: inst.mesh,
                custom_index_and_mask: INSTANCE_CUSTOM_INDEX_AND_MASK,
                sbt_offset_and_flags: INSTANCE_FLAGS_CULL_DISABLE,
                blas_address: blas_addresses[inst.mesh],
            },
        );
        i = i + 1;
    }
    out
}

/// The instance records of a scene graph: the meshes the roots' subtrees
/// instance (children before their parent), each with offset 0. Every
/// instanced mesh must have a bottom-level structure.
pub fn graph_instance_records(roots: &Vec<NodeInfo>, blas_addresses: &Vec<u64>) -> (r: Vec<
    InstanceRecord,
>)
    requires
        meshes_in_range(forest_instances(roots@), blas_addresses@.len()),
    ensures
        r@.len() == forest_instances(roots@).len(),
        forall|i: int|
            0 <= i < r@.len() ==> #[trigger] r@[i] == record_for(
                forest_instances(roots@)[i],
                blas_addresses@[forest_instances(roots@)[i].mesh as int],
                0,
            ),
{
    let instances = scene_instances(roots);
    instance_records(&instances, blas_addresses)
}

/// The number of instances that the top-level build is told about (the count,
/// taken as a `u32`).
pub fn top_level_primitive_count(instances: usize) -> (r: u32)
    ensures
        r == instances as u32,
{
    instances as u32
}

/// The only element of a collection that must hold exactly one.
pub fn sole_item<T>(items: &Vec<T>) -> (r: &T)
    requires
        items@.len() == 1,
    ensures
        *r == items@[0],
{
    &items[0]
}

/// The index-data offset of the first geometry of the first mesh.
pub fn sole_geometry_index_buffer_offset(meshes: &Vec<Vec<Geometry>>) -> (r: u64)
    requires
        meshes@.len() > 0,
        meshes@[0]@.len() > 0,
    ensures
        r == meshes@[0]@[0].index_buffer_offset,
{
    meshes[0][0].index_buffer_offset
}

/// The vertex-data offset of the first geometry of the first mesh.
pub fn sole_geometry_vertex_buffer_offset(meshes: &Vec<Vec<Geometry>>) -> (r: u64)
    requires
        meshes@.len() > 0,
        meshes@[0]@.len() > 0,
    ensures
        r == meshes@[0]@[0].vertex_buffer_offset,
{
    meshes[0][0].vertex_buffer_offset
}

#[verifier::external_type_specification]
#[verifier::external_body]
pub struct ExSmallRng(SmallRng);

#[verifier::external_type_specification]
#[verifier::external_body]
pub struct ExRandError(rand::Error);

/// `rand::SeedableRng::from_rng` for `SmallRng`, drawing the seed from
/// `rand::rngs::OsRng`: a generator seeded by the operating system, or the
/// error the system reported. Nothing is stated of the seed, nor of when the
/// system fails.
#[verifier::external_body]
fn small_rng_from_os() -> Result<SmallRng, rand::Error> {
    <SmallRng as rand::SeedableRng>::from_rng(rand::rngs::OsRng)
}

/// `rand::Rng::gen_range(0..=4)`: a random hit group record offset from 0 to 4
/// inclusive.
#[verifier::external_body]
fn random_sbt_offset(rng: &mut SmallRng) -> (r: u32)
    ensures
        r <= 4,
{
    rand::Rng::gen_range(rng, 0..=4u32)
}

/// Why the flat loader produced no records.
#[derive(Clone, Copy, Debug, PartialEq, Eq, Structural)]
pub enum SeedError {
    /// The operating system could not seed a random generator.
    EntropyUnavailable,
}

/// A record of the flat loader: it instances `mesh` from `blas_address`, is
/// visible to every ray mask, disables face culling and picks one of the five
/// first hit group records.
pub open spec fn random_record_ok(r: InstanceRecord, inst: Instance, blas_address: u64) -> bool {
    &&& r.node == inst.node
    &&& r.mesh == inst.mesh
    &&& r.blas_address == blas_address
    &&& r.custom_index_and_mask == INSTANCE_CUSTOM_INDEX_AND_MASK
    &&& INSTANCE_FLAGS_CULL_DISABLE <= r.sbt_offset_and_flags <= INSTANCE_FLAGS_CULL_DISABLE + 4
}

/// The instance records of the flat loader for given hit group record
/// offsets: one per root node that places a mesh, in root order, the `i`-th
/// with the `i`-th offset. Every instanced mesh must have a bottom-level
/// structure, and every offset picks one of the five first hit group records.
pub fn records_with_offsets(roots: &Vec<NodeInfo>, blas_addresses: &Vec<u64>, offsets: &Vec<u32>) -> (r: Vec<
    InstanceRecord,
>)
    requires
        meshes_in_range(root_instances(roots@), blas_addresses@.len()),
        offsets@.len() == root_instances(roots@).len(),
        forall|i: int| 0 <= i < offsets@.len() ==> #[trigger] offsets@[i] <= 4,
    ensures
        r@.len() == root_instances(roots@).len(),
        forall|i: int|
            0 <= i < r@.len() ==> #[trigger] r@[i] == record_for(
                root_instances(roots@)[i],
                blas_addresses@[root_instances(roots@)[i].mesh as int],
                offsets@[i],
            ),
{
    let instances = root_node_instances(roots);
    let mut out: Vec<InstanceRecord> = Vec::new();
    let mut i: usize = 0;
    while i < instances.len()
        invariant
            instances@ == root_instances(roots@),
            meshes_in_range(instances@, blas_addresses@.len()),
            offsets@.len() == instances@.len(),
            forall|k: int| 0 <= k < offsets@.len() ==> #[trigger] offsets@[k] <= 4,
            i <= instances@.len(),
            out@.len() == i,
            forall|k: int|
                0 <= k < i ==> #[trigger] out@[k] == record_for(
                    instances@[k],
                    blas_addresses@[instances@[k].mesh as int],
                    offsets@[k],
                ),
        decreases instances@.len() - i,
    {
        let inst = instances[i];
        let offset = offsets[i];
        assert(instances@[i as int].mesh < blas_addresses@.len());
        assert(offsets@[i as int] <= 4);
        assert((offset | INSTANCE_FLAGS_CULL_DISABLE) == offset + INSTANCE_FLAGS_CULL_DISABLE) by (bit_vector)
            requires
                offset <= 4u32,
                INSTANCE_FLAGS_CULL_DISABLE == 0x0100_0000u32,
        ;
        out.push(
            InstanceRecord {
                node: inst.node,
                mesh: inst.mesh,
                custom_index_and_mask: INSTANCE_CUSTOM_INDEX_AND_MASK,
                sbt_offset_and_flags: offset | INSTANCE_FLAGS_CULL_DISABLE,
                blas_address: blas_addresses[inst.mesh],
            },
        );
        i = i + 1;
    }
    out
}

/// The instance records of the flat loader: one per root node that places a
/// mesh, in root order, each with a hit group record offset drawn from a
/// generator seeded afresh for each root. Every instanced mesh must have a
/// bottom-level structure. Fails only when the system cannot seed a
/// generator, so never for a scene without roots.
pub fn random_root_instance_records(roots: &Vec<NodeInfo>, blas_addresses: &Vec<u64>) -> (r: Result<
    Vec<InstanceRecord>,
    SeedError,
>)
    requires
        meshes_in_range(root_instances(roots@), blas_addresses@.len()),
    ensures
        r is Err ==> roots@.len() > 0,
        r matches Ok(v) ==> v@.len() == root_instances(roots@).len() && forall|i: int|
            0 <= i < v@.len() ==> random_record_ok(
                #[trigger] v@[i],
                root_instances(roots@)[i],
                blas_addresses@[root_instances(roots@)[i].mesh as int],
            ),
{
    let mut offsets: Vec<u32> = Vec::new();
    let n = roots.len();
    let mut i: usize = 0;
    assert(roots@.take(0) =~= Seq::<NodeInfo>::empty());
    while i < n
        invariant
            n == roots@.len(),
            i <= n,
            offsets@.len() == root_instances(roots@.take(i as int)).len(),
            forall|k: int| 0 <= k < offsets@.len() ==> #[trigger] offsets@[k] <= 4,
        decreases n - i,
    {
        assert(roots@.take(i + 1).drop_last() =~= roots@.take(i as int));
        assert(roots@.take(i + 1).last() == roots@[i as int]);
        let mut rng = match small_rng_from_os() {
            Ok(rng) => rng,
            Err(_) => return Err(SeedError::EntropyUnavailable),
        };
        match roots[i].mesh {
            Some(_) => {
                let offset = random_sbt_offset(&mut rng);
                offsets.push(offset);
            },
            None => {},
        }
        i = i + 1;
    }
    assert(roots@.take(n as int) =~= roots@);
    let records = records_with_offsets(roots, blas_addresses, &offsets);
    assert forall|i: int| 0 <= i < records@.len() implies random_record_ok(
        #[trigger] records@[i],
        root_instances(roots@)[i],
        blas_addresses@[root_instances(roots@)[i].mesh as int],
    ) by {
        assert(offsets@[i] <= 4);
    }
    Ok(records)
}

/// A node's own mesh is instanced after everything in its subtree: it is the
/// last instance of the subtree.
pub proof fn lemma_parent_after_children(n: NodeInfo, m: usize)
    requires
        n.mesh == Some(m),
    ensures
        subtree_instances(n).len() > 0,
        subtree_instances(n).last() == (Instance { node: n.node, mesh: m }),
{
}

/// For a scene whose roots have no children, the flat loader and the graph
/// loader instance the same meshes in the same order.
pub proof fn lemma_flat_scene_same_instances(roots: Seq<NodeInfo>)
    requires
        forall|i: int| 0 <= i < roots.len() ==> (#[trigger] roots[i]).children@.len() == 0,
    ensures
        root_instances(roots) == forest_instances(roots),
    decreases roots.len(),
{
    if roots.len() > 0 {
        let r = roots.drop_last();
        assert forall|i: int| 0 <= i < r.len() implies (#[trigger] r[i]).children@.len() == 0 by {
            assert(r[i] == roots[i]);
        }
        lemma_flat_scene_same_instances(r);
        let last = roots.last();
        assert(roots[roots.len() - 1] == last);
        assert(children_instances(last, 0) == Seq::<Instance>::empty());
        assert(subtree_instances(last) =~= own_instance(last));
    }
}

} // verus!
