use fps_core::collider_generator::{
    collider_from_mesh, gen_collider, gen_collider_step, AssetCache, MakeMeshCollider, MeshData,
};
use fps_core::gtlf_helper::{compose_scene, create_meshes, AssetServer, MakeMesh};
use fps_core::math::{Placement, Vec3Fixed};
use fps_core::world::EntityState;

fn v(x: i64, y: i64, z: i64) -> Vec3Fixed {
    Vec3Fixed { x, y, z }
}

fn triangle_mesh() -> MeshData {
    MeshData {
        vertices: vec![v(0, 0, 0), v(1_000, 0, 0), v(0, 1_000, 0)],
        indices: vec![0, 1, 2],
    }
}

#[test]
fn compose_foo_glb() {
    let mut server = AssetServer::new();
    let mut e = EntityState::empty();
    e.make_mesh = Some(MakeMesh { path: "Foo.glb".to_string(), position: Placement::origin() });
    compose_scene(&mut e, &mut server);

    assert!(e.make_mesh.is_none());
    let scene = e.scene.unwrap();
    assert_eq!(server.path_of(scene.scene).as_str(), "Foo.glb#Scene0");
    assert_eq!(scene.transform, Placement::origin());
    let pending = e.pending_collider.unwrap();
    assert_eq!(server.path_of(pending.0).as_str(), "Foo.glb#Mesh0/Primitive0");
    assert!(e.collider.is_none());
}

#[test]
fn compose_without_request_is_noop() {
    let mut server = AssetServer::new();
    let mut e = EntityState::empty();
    compose_scene(&mut e, &mut server);
    assert_eq!(e, EntityState::empty());
    assert!(server.loaded.is_empty());
}

#[test]
fn create_meshes_composes_every_requesting_entity() {
    let mut server = AssetServer::new();
    let mut plain = EntityState::empty();
    plain.interactable = true;
    let mut requesting = EntityState::empty();
    requesting.make_mesh =
        Some(MakeMesh { path: "Cemetery.glb".to_string(), position: Placement::origin() });
    let mut entities = vec![plain, requesting];

    create_meshes(&mut entities, &mut server);

    assert!(entities[0].scene.is_none());
    assert!(entities[0].interactable);
    assert!(entities[1].make_mesh.is_none());
    let scene = entities[1].scene.as_ref().unwrap();
    assert_eq!(server.path_of(scene.scene).as_str(), "Cemetery.glb#Scene0");
    let pending = entities[1].pending_collider.as_ref().unwrap();
    assert_eq!(server.path_of(pending.0).as_str(), "Cemetery.glb#Mesh0/Primitive0");
}

#[test]
fn unready_request_persists() {
    let cache = AssetCache::new();
    let mut e = EntityState::empty();
    e.make_mesh = None;
    e.pending_collider = Some(MakeMeshCollider(0));
    gen_collider_step(&mut e, &cache);
    assert_eq!(e.pending_collider, Some(MakeMeshCollider(0)));
    assert!(e.collider.is_none());
}

#[test]
fn ready_request_resolves_once() {
    let cache = AssetCache { meshes: vec![Some(triangle_mesh())] };
    let mut e = EntityState::empty();
    e.pending_collider = Some(MakeMeshCollider(0));

    gen_collider_step(&mut e, &cache);
    assert!(e.pending_collider.is_none());
    let shape = e.collider.as_ref().unwrap();
    assert_eq!(shape.vertices, triangle_mesh().vertices);
    assert_eq!(shape.indices, triangle_mesh().indices);

    // A second tick is a no-op: the request no longer exists.
    let before = format!("{:?}", e);
    gen_collider_step(&mut e, &cache);
    assert_eq!(format!("{:?}", e), before);
}

#[test]
fn gen_collider_ticks_each_entity_independently() {
    let cache = AssetCache { meshes: vec![Some(triangle_mesh()), None] };
    let mut ready = EntityState::empty();
    ready.pending_collider = Some(MakeMeshCollider(0));
    let mut waiting = EntityState::empty();
    waiting.pending_collider = Some(MakeMeshCollider(1));
    let mut entities = vec![ready, waiting];

    gen_collider(&mut entities, &cache);

    assert!(entities[0].pending_collider.is_none());
    assert!(entities[0].collider.is_some());
    assert_eq!(entities[1].pending_collider, Some(MakeMeshCollider(1)));
    assert!(entities[1].collider.is_none());
}

#[test]
fn malformed_mesh_leaves_request_pending() {
    let bad = MeshData { vertices: vec![v(0, 0, 0)], indices: vec![0, 0, 5] };
    let cache = AssetCache { meshes: vec![Some(bad)] };
    let mut e = EntityState::empty();
    e.pending_collider = Some(MakeMeshCollider(0));
    gen_collider_step(&mut e, &cache);
    assert_eq!(e.pending_collider, Some(MakeMeshCollider(0)));
    assert!(e.collider.is_none());
}

#[test]
fn collider_from_mesh_accepts_whole_triangles_only() {
    let ragged = MeshData { vertices: vec![v(0, 0, 0), v(1, 0, 0)], indices: vec![0, 1] };
    assert!(collider_from_mesh(&ragged).is_none());

    let good = triangle_mesh();
    let shape = collider_from_mesh(&good).unwrap();
    assert_eq!(shape.vertices, good.vertices);
    assert_eq!(shape.indices, good.indices);
}

#[test]
fn try_get_polls_by_handle() {
    let cache = AssetCache { meshes: vec![None, Some(triangle_mesh())] };
    assert!(cache.try_get(0).is_none());
    assert!(cache.try_get(1).is_some());
    assert!(cache.try_get(2).is_none());
}
