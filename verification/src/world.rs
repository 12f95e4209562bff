//! The per-entity component record the pipeline systems read and
//! mutate: a declarative spawn request, the renderable-scene reference
//! composed from it, the pending collider request polled until its
//! mesh is ready, the attached collision shape, and the interaction
//! capability marker.

use vstd::prelude::*;

use crate::collider_generator::{MakeMeshCollider, TriMesh};
use crate::gtlf_helper::{MakeMesh, SceneRef};

verus! {

/// The components of one entity that the pipeline acts on. Each field
/// models one attachable component; `None` means the component is
/// absent.
#[derive(Debug, PartialEq, Eq)]
pub struct EntityState {
    /// Declarative spawn request, consumed exactly once by the scene
    /// composer.
    pub make_mesh: Option<MakeMesh>,
    /// Renderable-scene reference attached by the scene composer.
    pub scene: Option<SceneRef>,
    /// Pending collider request, destroyed the instant its mesh
    /// becomes available and a collision shape is attached.
    pub pending_collider: Option<MakeMeshCollider>,
    /// The attached triangle-mesh collision shape.
    pub collider: Option<TriMesh>,
    /// Whether the entity reacts to being aimed at.
    pub interactable: bool,
}

impl EntityState {
    /// An entity with no components attached.
    pub fn empty() -> (r: EntityState)
        ensures
            r.make_mesh is None,
            r.scene is None,
            r.pending_collider is None,
            r.collider is None,
            !r.interactable,
    {
        EntityState {
            make_mesh: None,
            scene: None,
            pending_collider: None,
            collider: None,
            interactable: false,
        }
    }
}

} // verus!
