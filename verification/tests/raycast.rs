use fps_core::interaction::{
    cast_ray, interaction_tick, DebugRay, Interact, Interactable, RayHit,
};
use fps_core::math::Vec3Fixed;
use fps_core::world::EntityState;

fn v(x: i64, y: i64, z: i64) -> Vec3Fixed {
    Vec3Fixed { x, y, z }
}

fn hit(entity: usize, toi: u64) -> RayHit {
    RayHit { entity, toi }
}

#[test]
fn nearest_skips_the_players_own_collider() {
    // The player's collider is the nearest candidate, yet the result
    // is the nearer of the two other colliders.
    let hits = vec![hit(0, 5), hit(1, 20), hit(2, 10)];
    assert_eq!(cast_ray(&hits, 100, 0), Some(hit(2, 10)));
}

#[test]
fn nearest_respects_max_distance() {
    let hits = vec![hit(1, 80), hit(2, 120)];
    assert_eq!(cast_ray(&hits, 100, 0), Some(hit(1, 80)));
    assert_eq!(cast_ray(&hits, 50, 0), None);
}

#[test]
fn nearest_tie_prefers_the_earlier_candidate() {
    let hits = vec![hit(3, 10), hit(4, 10)];
    assert_eq!(cast_ray(&hits, 100, 0), Some(hit(3, 10)));
}

#[test]
fn nearest_of_no_candidates_is_a_miss() {
    let hits: Vec<RayHit> = Vec::new();
    assert_eq!(cast_ray(&hits, 100, 0), None);
}

fn world_of(flags: &[bool]) -> Vec<EntityState> {
    flags
        .iter()
        .map(|f| {
            let mut e = EntityState::empty();
            e.interactable = *f;
            e
        })
        .collect()
}

#[test]
fn tick_invokes_the_aimed_interactable_once() {
    // Entity 0 is the player; entity 2 is nearest and interactable.
    let entities = world_of(&[false, false, true]);
    let hits = vec![hit(0, 5), hit(1, 20), hit(2, 10)];
    let outcome = interaction_tick(v(0, 0, 0), v(0, 0, -1_000), 100, 0, &hits, &entities);
    assert_eq!(outcome.invoked, Some(2));
    assert_eq!(
        outcome.debug_ray,
        Some(DebugRay { origin: v(0, 0, 0), direction: v(0, 0, -1_000), max_toi: 100 })
    );
}

#[test]
fn tick_skips_when_a_closer_plain_entity_shields() {
    // Entity 1 is nearest but not interactable; the interactable
    // entity 2 behind it is not invoked.
    let entities = world_of(&[false, false, true]);
    let hits = vec![hit(1, 10), hit(2, 20)];
    let outcome = interaction_tick(v(0, 0, 0), v(0, 0, -1_000), 100, 0, &hits, &entities);
    assert_eq!(outcome.invoked, None);
    assert!(outcome.debug_ray.is_some());
}

#[test]
fn tick_on_a_miss_still_draws_the_debug_ray() {
    let entities = world_of(&[false, true]);
    let hits: Vec<RayHit> = Vec::new();
    let outcome = interaction_tick(v(1, 2, 3), v(1, 2, -997), 250, 0, &hits, &entities);
    assert_eq!(outcome.invoked, None);
    assert_eq!(
        outcome.debug_ray,
        Some(DebugRay { origin: v(1, 2, 3), direction: v(0, 0, -1_000), max_toi: 250 })
    );
}

#[test]
fn degenerate_aim_casts_nothing() {
    let entities = world_of(&[false, true]);
    let hits = vec![hit(1, 1)];
    let outcome = interaction_tick(v(5, 5, 5), v(5, 5, 5), 100, 0, &hits, &entities);
    assert_eq!(outcome.invoked, None);
    assert_eq!(outcome.debug_ray, None);
}

#[test]
fn interactable_effect_is_a_diagnostic_notification() {
    assert_eq!(Interactable.interact(), "Called");
}
