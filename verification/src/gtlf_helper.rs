//! Scene composer: turns a declarative spawn request into the two
//! addressable sub-resources of its asset container — the renderable
//! scene and the source mesh — using a fixed positional suffix
//! convention, attaches the scene reference and a pending collider
//! request, and consumes the spawn request.

use vstd::prelude::*;
use vstd::string::StringExecFns;

use crate::collider_generator::MakeMeshCollider;
use crate::math::Placement;
use crate::world::EntityState;

verus! {

/// Suffix addressing the first scene of an asset container.
pub open spec fn scene_suffix() -> Seq<char> {
    "#Scene0"@
}

/// Suffix addressing the first primitive of the first mesh of an
/// asset container.
pub open spec fn mesh_suffix() -> Seq<char> {
    "#Mesh0/Primitive0"@
}

/// A declarative spawn request: materialize the asset at `path` with
/// the given placement.
#[derive(Debug, PartialEq, Eq)]
pub struct MakeMesh {
    pub path: String,
    pub position: Placement,
}

impl MakeMesh {
    /// An exact copy, with the path's characters preserved.
    pub fn duplicate(&self) -> (r: MakeMesh)
        ensures
            r == *self,
    {
        MakeMesh { path: self.path.clone(), position: self.position }
    }
}

impl Default for MakeMesh {
    /// An empty path placed at the origin.
    fn default() -> (r: MakeMesh)
        ensures
            r.path@ == Seq::<char>::empty(),
            r.position == (Placement {
                position: crate::math::Vec3Fixed { x: 0, y: 0, z: 0 },
                orientation: crate::math::Orientation { roll: 0, yaw: 0, pitch: 0 },
            }),
    {
        let path = String::new();
        MakeMesh { path, position: Placement::origin() }
    }
}

/// The renderable-scene component: a handle to the scene sub-resource,
/// loading asynchronously, and the placement it was requested at.
#[derive(Clone, Copy, Debug, PartialEq, Eq, Structural)]
pub struct SceneRef {
    pub scene: usize,
    pub transform: Placement,
}

/// The asset server as the composer sees it: every `load` dispatches
/// an asynchronous load of the named sub-resource and returns a fresh
/// handle. The handle is the index of the recorded path; what a handle
/// resolves to never changes afterwards.
#[derive(Debug, PartialEq, Eq)]
pub struct AssetServer {
    pub loaded: Vec<String>,
}

/// Handle `h` resolves to the resource path `path`.
pub open spec fn resolves_to(s: AssetServer, h: usize, path: Seq<char>) -> bool {
    h < s.loaded@.len() && s.loaded@[h as int]@ == path
}

impl AssetServer {
    /// A server with no loads dispatched.
    pub fn new() -> (r: AssetServer)
        ensures
            r.loaded@.len() == 0,
    {
        AssetServer { loaded: Vec::new() }
    }

    /// Dispatches a load of `path` and returns the handle it will be
    /// observable under.
    pub fn load(&mut self, path: String) -> (h: usize)
        ensures
            final(self).loaded@ == old(self).loaded@.push(path),
            h == old(self).loaded@.len(),
    {
        let h = self.loaded.len();
        self.loaded.push(path);
        h
    }

    /// The path a handle was made from.
    pub fn path_of(&self, h: usize) -> (r: &String)
        requires
            h < self.loaded@.len(),
        ensures
            resolves_to(*self, h, r@),
    {
        &self.loaded[h]
    }
}

/// How one entity relates to its pre-state after a composer tick over
/// the server in its post-state: an entity without a spawn request is
/// untouched; one with a request has the request consumed, a scene
/// reference resolving to `path + "#Scene0"` attached at the requested
/// placement, and a pending collider request resolving to
/// `path + "#Mesh0/Primitive0"` attached; its other components keep
/// their values.
pub open spec fn composed(pre: EntityState, post: EntityState, server: AssetServer) -> bool {
    if pre.make_mesh is None {
        post == pre
    } else {
        let mm = pre.make_mesh->Some_0;
        &&& post.make_mesh is None
        &&& post.scene is Some
        &&& post.scene->Some_0.transform == mm.position
        &&& resolves_to(server, post.scene->Some_0.scene, mm.path@ + scene_suffix())
        &&& post.pending_collider is Some
        &&& resolves_to(server, post.pending_collider->Some_0.0, mm.path@ + mesh_suffix())
        &&& post.collider == pre.collider
        &&& post.interactable == pre.interactable
    }
}

/// Composes one entity: a no-op without a spawn request; otherwise
/// attaches the renderable scene and the pending collider request,
/// dispatches both loads, and deletes the spawn request. This step has
/// no failure path of its own: a malformed path only yields a load
/// that never resolves, detected nowhere before the collider
/// generator's polling.
pub fn compose_scene(entity: &mut EntityState, server: &mut AssetServer)
    ensures
        composed(*old(entity), *final(entity), *final(server)),
        old(entity).make_mesh is None ==> *final(entity) == *old(entity) && *final(server) == *old(
            server,
        ),
        old(entity).make_mesh is Some ==> {
            &&& final(server).loaded@.len() == old(server).loaded@.len() + 2
            &&& (forall|j: int|
                0 <= j < old(server).loaded@.len() ==> final(server).loaded@[j] == old(
                    server,
                ).loaded@[j])
            &&& final(entity).scene->Some_0.scene == old(server).loaded@.len()
            &&& final(entity).pending_collider->Some_0.0 == old(server).loaded@.len() + 1
        },
{
    let mm: MakeMesh = match &entity.make_mesh {
        None => {
            return ;
        },
        Some(m) => m.duplicate(),
    };
    entity.make_mesh = None;
    let scene_path: String = mm.path.clone().concat("#Scene0");
    let mesh_path: String = mm.path.clone().concat("#Mesh0/Primitive0");
    let h_scene = server.load(scene_path);
    let h_mesh = server.load(mesh_path);
    entity.scene = Some(SceneRef { scene: h_scene, transform: mm.position });
    entity.pending_collider = Some(MakeMeshCollider(h_mesh));
}

/// One composer tick: composes every entity, in order. Handles made
/// before the tick keep what they resolve to.
pub fn create_meshes(entities: &mut Vec<EntityState>, server: &mut AssetServer)
    ensures
        final(entities)@.len() == old(entities)@.len(),
        forall|j: int|
            0 <= j < old(server).loaded@.len() ==> final(server).loaded@[j] == old(
                server,
            ).loaded@[j],
        old(server).loaded@.len() <= final(server).loaded@.len(),
        forall|i: int|
            0 <= i < old(entities)@.len() ==> #[trigger] composed(
                old(entities)@[i],
                final(entities)@[i],
                *final(server),
            ),
{
    let mut i: usize = 0;
    while i < entities.len()
        invariant
            i <= entities@.len(),
            entities@.len() == old(entities)@.len(),
            forall|j: int|
                0 <= j < old(server).loaded@.len() ==> server.loaded@[j] == old(
                    server,
                ).loaded@[j],
            old(server).loaded@.len() <= server.loaded@.len(),
            forall|j: int| i <= j < entities@.len() ==> entities@[j] == old(entities)@[j],
            forall|k: int|
                0 <= k < i ==> #[trigger] composed(old(entities)@[k], entities@[k], *server),
        decreases entities@.len() - i,
    {
        let ghost server_before = *server;
        let ghost entities_before = entities@;
        let mut e = entities.remove(i);
        compose_scene(&mut e, server);
        entities.insert(i, e);
        proof {
            assert(entities@ =~= entities_before.update(i as int, e));
            assert forall|k: int| 0 <= k < i + 1 implies #[trigger] composed(
                old(entities)@[k],
                entities@[k],
                *server,
            ) by {
                if k < i {
                    lemma_composed_monotonic(
                        old(entities)@[k],
                        entities@[k],
                        server_before,
                        *server,
                    );
                }
            }
        }
        i = i + 1;
    }
}

/// Composition is stable under further loads: once the relation holds
/// of a server state, it holds of every extension of it, because a
/// handle keeps resolving to the same path.
pub proof fn lemma_composed_monotonic(
    pre: EntityState,
    post: EntityState,
    s1: AssetServer,
    s2: AssetServer,
)
    requires
        composed(pre, post, s1),
        s1.loaded@.len() <= s2.loaded@.len(),
        forall|j: int| 0 <= j < s1.loaded@.len() ==> s2.loaded@[j] == s1.loaded@[j],
    ensures
        composed(pre, post, s2),
{
}

} // verus!
