//! Interaction raycaster: each tick, a ray is cast from the player
//! body toward its forward helper; the nearest hit that is not the
//! player's own collider is found, and if the hit entity carries the
//! interaction capability its effect is invoked, exactly once.

use vstd::prelude::*;

use crate::math::{coord_in_range, vec3_diff, vec3_sub, Vec3Fixed};
use crate::world::EntityState;

verus! {

/// A world entity that can be aimed at; carries no state of its own.
#[derive(Clone, Copy, Debug, PartialEq, Eq, Structural)]
pub struct Sword;

/// Capability marker: the entity reacts to being aimed at.
#[derive(Clone, Copy, Debug, PartialEq, Eq, Structural)]
pub struct Interactable;

/// The response of an entity to being aimed at and selected. The
/// effect is invoked by reference and returns a diagnostic
/// notification for the operator.
pub trait Interact {
    fn interact(&self) -> String;
}

impl Interact for Interactable {
    fn interact(&self) -> String {
        "Called".to_owned()
    }
}

/// One candidate intersection of the cast ray: the entity whose
/// collider the ray crosses and the distance travelled to it.
#[derive(Clone, Copy, Debug, PartialEq, Eq, Structural)]
pub struct RayHit {
    pub entity: usize,
    pub toi: u64,
}

/// A hit counts only if it is not the excluded collider and lies
/// within the maximum travel distance.
pub open spec fn admissible(h: RayHit, max_toi: u64, exclude: usize) -> bool {
    h.entity != exclude && h.toi <= max_toi
}

/// The nearest admissible hit among the candidates; on equal
/// distances, the earlier candidate.
pub open spec fn nearest_hit(s: Seq<RayHit>, max_toi: u64, exclude: usize) -> Option<RayHit>
    decreases s.len(),
{
    if s.len() == 0 {
        None
    } else {
        let prev = nearest_hit(s.drop_last(), max_toi, exclude);
        let h = s.last();
        if !admissible(h, max_toi, exclude) {
            prev
        } else {
            match prev {
                None => Some(h),
                Some(b) => if b.toi <= h.toi {
                    Some(b)
                } else {
                    Some(h)
                },
            }
        }
    }
}

/// What the nearest hit is: one of the candidates, never the excluded
/// collider, never past the maximum distance, and no admissible
/// candidate is nearer; absent exactly when no candidate is
/// admissible.
pub proof fn lemma_nearest_hit_props(s: Seq<RayHit>, max_toi: u64, exclude: usize)
    ensures
        nearest_hit(s, max_toi, exclude) matches Some(h) ==> admissible(h, max_toi, exclude) && (
        exists|i: int| 0 <= i < s.len() && s[i] == h),
        forall|i: int|
            0 <= i < s.len() && admissible(#[trigger] s[i], max_toi, exclude) ==> nearest_hit(
                s,
                max_toi,
                exclude,
            ) is Some && nearest_hit(s, max_toi, exclude)->Some_0.toi <= s[i].toi,
    decreases s.len(),
{
    if s.len() > 0 {
        lemma_nearest_hit_props(s.drop_last(), max_toi, exclude);
        assert forall|i: int|
            0 <= i < s.len() && admissible(#[trigger] s[i], max_toi, exclude) implies nearest_hit(
            s,
            max_toi,
            exclude,
        ) is Some && nearest_hit(s, max_toi, exclude)->Some_0.toi <= s[i].toi by {
            if i < s.len() - 1 {
                assert(s.drop_last()[i] == s[i]);
            }
        }
        if nearest_hit(s, max_toi, exclude) is Some {
            let h = nearest_hit(s, max_toi, exclude)->Some_0;
            if nearest_hit(s.drop_last(), max_toi, exclude) == Some::<RayHit>(h) {
                let i = choose|i: int|
                    0 <= i < s.drop_last().len() && s.drop_last()[i] == h;
                assert(s[i] == h);
            } else {
                assert(s[s.len() - 1] == h);
            }
        }
    }
}

/// Finds the nearest admissible candidate: within `max_toi`, not the
/// excluded collider, ties resolved toward the earlier candidate.
pub fn cast_ray(hits: &Vec<RayHit>, max_toi: u64, exclude: usize) -> (r: Option<RayHit>)
    ensures
        r == nearest_hit(hits@, max_toi, exclude),
{
    let mut best: Option<RayHit> = None;
    let mut i: usize = 0;
    while i < hits.len()
        invariant
            i <= hits@.len(),
            best == nearest_hit(hits@.take(i as int), max_toi, exclude),
        decreases hits@.len() - i,
    {
        let h = hits[i];
        proof {
            assert(hits@.take(i + 1).drop_last() =~= hits@.take(i as int));
            assert(hits@.take(i + 1).last() == hits@[i as int]);
        }
        if h.entity != exclude && h.toi <= max_toi {
            match best {
                None => {
                    best = Some(h);
                },
                Some(b) => {
                    if h.toi < b.toi {
                        best = Some(h);
                    }
                },
            }
        }
        i = i + 1;
    }
    proof {
        assert(hits@.take(hits@.len() as int) =~= hits@);
    }
    best
}

/// A debug ray drawn for operator visibility: always along the cast
/// direction for the full maximum distance, hit or miss.
#[derive(Clone, Copy, Debug, PartialEq, Eq, Structural)]
pub struct DebugRay {
    pub origin: Vec3Fixed,
    pub direction: Vec3Fixed,
    pub max_toi: u64,
}

/// What one raycaster tick produced: the debug ray, if a ray was cast
/// at all, and the entity whose interaction effect is to be invoked,
/// if any. The `Option` makes the dispatch at most one per tick.
#[derive(Clone, Copy, Debug, PartialEq, Eq, Structural)]
pub struct InteractionOutcome {
    pub debug_ray: Option<DebugRay>,
    pub invoked: Option<usize>,
}

/// One raycaster tick. The ray starts at the player body's position
/// and runs toward the forward helper's position; coinciding points
/// are a degenerate aim, treated as "no cast this tick", not an
/// error. The player's own collider is excluded from the query. The
/// nearest admissible hit's entity is selected for invocation exactly
/// when it carries the interaction capability.
pub fn interaction_tick(
    player_pos: Vec3Fixed,
    helper_pos: Vec3Fixed,
    max_toi: u64,
    player_entity: usize,
    hits: &Vec<RayHit>,
    entities: &Vec<EntityState>,
) -> (r: InteractionOutcome)
    requires
        coord_in_range(player_pos),
        coord_in_range(helper_pos),
        forall|i: int| 0 <= i < hits@.len() ==> #[trigger] hits@[i].entity < entities@.len(),
    ensures
        player_pos == helper_pos ==> r == (InteractionOutcome {
            debug_ray: None,
            invoked: None,
        }),
        player_pos != helper_pos ==> r.debug_ray == Some(
            DebugRay { origin: player_pos, direction: vec3_diff(player_pos, helper_pos), max_toi },
        ),
        player_pos != helper_pos ==> {
            let n = nearest_hit(hits@, max_toi, player_entity);
            &&& n is None ==> r.invoked is None
            &&& n matches Some(h) ==> r.invoked == (if entities@[h.entity as int].interactable {
                Some(h.entity)
            } else {
                None::<usize>
            })
        },
{
    if player_pos == helper_pos {
        return InteractionOutcome { debug_ray: None, invoked: None };
    }
    let direction = vec3_sub(player_pos, helper_pos);
    let debug_ray = Some(DebugRay { origin: player_pos, direction, max_toi });
    let invoked: Option<usize> = match cast_ray(hits, max_toi, player_entity) {
        None => None,
        Some(h) => {
            proof {
                lemma_nearest_hit_props(hits@, max_toi, player_entity);
            }
            if entities[h.entity].interactable {
                Some(h.entity)
            } else {
                None
            }
        },
    };
    InteractionOutcome { debug_ray, invoked }
}

} // verus!
