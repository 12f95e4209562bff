//! Collider generator: polls every pending collider request against
//! the asset cache once per tick. A request whose mesh is not ready is
//! left untouched for a level-triggered retry; a ready, well-formed
//! mesh is turned into a triangle-mesh collision shape, attached, and
//! the request deleted in the same step, so resolution is one-shot.

use vstd::prelude::*;

use crate::math::Vec3Fixed;
use crate::world::EntityState;

verus! {

/// Pending collider request: the handle of the mesh sub-resource the
/// collision shape is to be built from.
#[derive(Clone, Copy, Debug, PartialEq, Eq, Structural)]
pub struct MakeMeshCollider(pub usize);

/// Loaded mesh data as the cache exposes it: vertex positions and a
/// flat triangle index buffer.
#[derive(Debug, PartialEq, Eq)]
pub struct MeshData {
    pub vertices: Vec<Vec3Fixed>,
    pub indices: Vec<usize>,
}

impl MeshData {
    /// The index buffer is whole triangles and every index addresses
    /// a vertex.
    pub open spec fn wf(self) -> bool {
        &&& self.indices@.len() % 3 == 0
        &&& forall|i: int| 0 <= i < self.indices@.len() ==> self.indices@[i] < self.vertices@.len()
    }
}

/// A triangle-mesh collision shape, carrying the geometry it was
/// built from.
#[derive(Debug, PartialEq, Eq)]
pub struct TriMesh {
    pub vertices: Vec<Vec3Fixed>,
    pub indices: Vec<usize>,
}

/// The asset cache as the generator sees it: readiness is observed by
/// polling only. Slot `h` holds the resource behind handle `h` once it
/// has finished loading.
#[derive(Debug, PartialEq, Eq)]
pub struct AssetCache {
    pub meshes: Vec<Option<MeshData>>,
}

impl AssetCache {
    /// The mesh behind `h` has finished loading.
    pub open spec fn mesh_ready(self, h: usize) -> bool {
        h < self.meshes@.len() && self.meshes@[h as int] is Some
    }

    /// The mesh behind `h`, where ready.
    pub open spec fn mesh_at(self, h: usize) -> MeshData {
        self.meshes@[h as int]->Some_0
    }

    /// A cache with nothing resolved yet.
    pub fn new() -> (r: AssetCache)
        ensures
            r.meshes@.len() == 0,
    {
        AssetCache { meshes: Vec::new() }
    }

    /// One poll: the mesh if it is ready, else nothing.
    pub fn try_get(&self, h: usize) -> (r: Option<&MeshData>)
        ensures
            r is Some <==> self.mesh_ready(h),
            r matches Some(m) ==> *m == self.mesh_at(h),
    {
        if h < self.meshes.len() {
            self.meshes[h].as_ref()
        } else {
            None
        }
    }
}

/// Copies a vector of plain values.
fn copy_all<T: Copy>(v: &Vec<T>) -> (r: Vec<T>)
    ensures
        r@ == v@,
{
    let mut r: Vec<T> = Vec::new();
    let mut i: usize = 0;
    while i < v.len()
        invariant
            i <= v@.len(),
            r@ == v@.take(i as int),
        decreases v@.len() - i,
    {
        r.push(v[i]);
        proof {
            assert(v@.take(i + 1) =~= v@.take(i as int).push(v@[i as int]));
        }
        i = i + 1;
    }
    proof {
        assert(v@.take(v@.len() as int) =~= v@);
    }
    r
}

/// Builds a triangle-mesh collision shape from loaded mesh data.
/// Succeeds exactly on well-formed data; the shape carries the mesh's
/// geometry unchanged.
pub fn collider_from_mesh(m: &MeshData) -> (r: Option<TriMesh>)
    ensures
        r is Some <==> m.wf(),
        r matches Some(t) ==> t.vertices@ == m.vertices@ && t.indices@ == m.indices@,
{
    if m.indices.len() % 3 != 0 {
        return None;
    }
    let mut i: usize = 0;
    while i < m.indices.len()
        invariant
            i <= m.indices@.len(),
            forall|j: int| 0 <= j < i ==> m.indices@[j] < m.vertices@.len(),
        decreases m.indices@.len() - i,
    {
        if m.indices[i] >= m.vertices.len() {
            return None;
        }
        i = i + 1;
    }
    Some(TriMesh { vertices: copy_all(&m.vertices), indices: copy_all(&m.indices) })
}

/// How one entity relates to its pre-state after a generator tick.
/// Without a pending request, or with one whose mesh is not ready or
/// not well-formed, the entity is untouched and the request, if any,
/// persists: not-yet-ready and permanently-unresolvable loads are
/// indistinguishable here, both a skip-and-retry. A ready well-formed
/// mesh has its shape attached and the request deleted in one step.
pub open spec fn collider_generated(pre: EntityState, post: EntityState, cache: AssetCache) -> bool {
    if pre.pending_collider is Some {
        let h = pre.pending_collider->Some_0.0;
        if cache.mesh_ready(h) && cache.mesh_at(h).wf() {
            &&& post.pending_collider is None
            &&& post.collider is Some
            &&& post.collider->Some_0.vertices@ == cache.mesh_at(h).vertices@
            &&& post.collider->Some_0.indices@ == cache.mesh_at(h).indices@
            &&& post.make_mesh == pre.make_mesh
            &&& post.scene == pre.scene
            &&& post.interactable == pre.interactable
        } else {
            post == pre
        }
    } else {
        post == pre
    }
}

/// One generator step for one entity.
pub fn gen_collider_step(entity: &mut EntityState, cache: &AssetCache)
    ensures
        collider_generated(*old(entity), *final(entity), *cache),
{
    let h: usize = match &entity.pending_collider {
        None => {
            return ;
        },
        Some(mc) => mc.0,
    };
    match cache.try_get(h) {
        None => (),
        Some(m) => {
            match collider_from_mesh(m) {
                None => (),
                Some(t) => {
                    entity.collider = Some(t);
                    entity.pending_collider = None;
                },
            }
        },
    }
}

/// One generator tick: polls every entity's pending request against
/// the cache, each entity independently.
pub fn gen_collider(entities: &mut Vec<EntityState>, cache: &AssetCache)
    ensures
        final(entities)@.len() == old(entities)@.len(),
        forall|i: int|
            0 <= i < old(entities)@.len() ==> #[trigger] collider_generated(
                old(entities)@[i],
                final(entities)@[i],
                *cache,
            ),
{
    let mut i: usize = 0;
    while i < entities.len()
        invariant
            i <= entities@.len(),
            entities@.len() == old(entities)@.len(),
            forall|j: int| i <= j < entities@.len() ==> entities@[j] == old(entities)@[j],
            forall|k: int|
                0 <= k < i ==> #[trigger] collider_generated(
                    old(entities)@[k],
                    entities@[k],
                    *cache,
                ),
        decreases entities@.len() - i,
    {
        let ghost entities_before = entities@;
        let mut e = entities.remove(i);
        gen_collider_step(&mut e, cache);
        entities.insert(i, e);
        proof {
            assert(entities@ =~= entities_before.update(i as int, e));
        }
        i = i + 1;
    }
}

/// An unready request persists untouched: one tick over a cache that
/// does not hold its mesh leaves every component of the entity
/// unchanged and the request intact.
pub proof fn lemma_unready_request_persists(pre: EntityState, post: EntityState, cache: AssetCache)
    requires
        collider_generated(pre, post, cache),
        pre.pending_collider is Some,
        !cache.mesh_ready(pre.pending_collider->Some_0.0),
    ensures
        post == pre,
        post.pending_collider == pre.pending_collider,
{
}

/// Resolution is one-shot: once a ready, well-formed mesh has been
/// turned into a collision shape and its request deleted, a second
/// tick over any cache changes nothing.
pub proof fn lemma_resolution_one_shot(
    pre: EntityState,
    mid: EntityState,
    post: EntityState,
    cache: AssetCache,
    cache_later: AssetCache,
)
    requires
        pre.pending_collider is Some,
        cache.mesh_ready(pre.pending_collider->Some_0.0),
        cache.mesh_at(pre.pending_collider->Some_0.0).wf(),
        collider_generated(pre, mid, cache),
        collider_generated(mid, post, cache_later),
    ensures
        mid.pending_collider is None,
        mid.collider is Some,
        post == mid,
{
}

} // verus!
