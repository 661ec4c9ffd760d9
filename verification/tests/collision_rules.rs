use spiderweb::collision::{CollisionOutcome, apply_outcomes, remove_caught, resolve};
use spiderweb::geom::{Aabb, hit_from_below};
use spiderweb::ledger::GameResources;

const PX: i64 = 1_000_000;

fn player_box() -> Aabb {
    Aabb { cx: 0, cy: 0, hw: 32 * PX, hh: 32 * PX }
}

fn web_box() -> Aabb {
    Aabb { cx: 0, cy: 500 * PX, hw: 1_500_000, hh: 500 * PX }
}

fn fly_box(cx: i64, cy: i64) -> Aabb {
    Aabb { cx, cy, hw: 16 * PX, hh: 16 * PX }
}

#[test]
fn overlap_is_strict() {
    let a = Aabb { cx: 0, cy: 0, hw: 10, hh: 10 };
    let touching = Aabb { cx: 20, cy: 0, hw: 10, hh: 10 };
    let crossing = Aabb { cx: 19, cy: 0, hw: 10, hh: 10 };
    assert!(!a.overlaps(&touching));
    assert!(a.overlaps(&crossing));
    assert!(crossing.overlaps(&a));
}

#[test]
fn bottom_hit_classification() {
    // Straight underneath, shallow vertical penetration: a bottom-edge hit.
    assert!(hit_from_below(&player_box(), &fly_box(0, -30 * PX)));
    // Level with the player: not from below.
    assert!(!hit_from_below(&player_box(), &fly_box(30 * PX, 0)));
    // Above the player: not from below.
    assert!(!hit_from_below(&player_box(), &fly_box(0, 30 * PX)));
    // Below but mostly to the side: the shallower axis is horizontal.
    assert!(!hit_from_below(&player_box(), &fly_box(40 * PX, -20 * PX)));
    // No overlap at all: not a hit.
    assert!(!hit_from_below(&player_box(), &fly_box(0, -200 * PX)));
}

#[test]
fn resolve_empty_list_yields_no_outcome() {
    let outcomes = resolve(&player_box(), &web_box(), &Vec::new());
    assert!(outcomes.is_empty());
    let mut res = GameResources { energy: 500_000, score: 4 };
    let died = apply_outcomes(&mut res, &outcomes);
    assert!(!died);
    assert_eq!(res.energy, 500_000);
    assert_eq!(res.score, 4);
}

#[test]
fn resolve_catches_in_list_order_and_skips_misses() {
    let enemies = vec![
        fly_box(30 * PX, 0),      // caught
        fly_box(1000 * PX, 0),    // far away
        fly_box(-30 * PX, 10 * PX), // caught
    ];
    let outcomes = resolve(&player_box(), &web_box(), &enemies);
    assert_eq!(
        outcomes,
        vec![CollisionOutcome::EnemyCaught(0), CollisionOutcome::EnemyCaught(2)]
    );
}

#[test]
fn resolve_bottom_hit_kills_and_stops_the_sweep() {
    let enemies = vec![
        fly_box(30 * PX, 0),   // caught first
        fly_box(0, -30 * PX),  // bottom-edge hit: death
        fly_box(-30 * PX, 0),  // never processed
    ];
    let outcomes = resolve(&player_box(), &web_box(), &enemies);
    assert_eq!(
        outcomes,
        vec![CollisionOutcome::EnemyCaught(0), CollisionOutcome::PlayerDied]
    );
}

#[test]
fn resolve_web_contact_kills() {
    // Misses the player entirely but crosses the web strip above it.
    let enemies = vec![fly_box(0, 300 * PX)];
    let outcomes = resolve(&player_box(), &web_box(), &enemies);
    assert_eq!(outcomes, vec![CollisionOutcome::PlayerDied]);
}

#[test]
fn apply_outcomes_credits_each_catch() {
    let outcomes = vec![CollisionOutcome::EnemyCaught(0), CollisionOutcome::EnemyCaught(2)];
    let mut res = GameResources { energy: 500_000, score: 0 };
    let died = apply_outcomes(&mut res, &outcomes);
    assert!(!died);
    // 0.5 -> 0.7 -> 0.8
    assert_eq!(res.energy, 800_000);
    assert_eq!(res.score, 2);
}

#[test]
fn apply_outcomes_death_stops_ledger_updates() {
    let outcomes = vec![CollisionOutcome::EnemyCaught(0), CollisionOutcome::PlayerDied];
    let mut res = GameResources { energy: 100_000, score: 0 };
    let died = apply_outcomes(&mut res, &outcomes);
    assert!(died);
    // The catch before the death still counts; nothing after it would.
    assert_eq!(res.energy, 400_000);
    assert_eq!(res.score, 1);
}

#[test]
fn ledger_totals_are_order_independent_without_a_death() {
    // The same batch of enemies in two different orders: the final ledger
    // agrees, because every catch credits the same table.
    let order1 = vec![fly_box(30 * PX, 0), fly_box(1000 * PX, 0), fly_box(-30 * PX, 10 * PX)];
    let order2 = vec![fly_box(-30 * PX, 10 * PX), fly_box(30 * PX, 0), fly_box(1000 * PX, 0)];
    let mut res1 = GameResources { energy: 250_000, score: 0 };
    let mut res2 = GameResources { energy: 250_000, score: 0 };
    let died1 = apply_outcomes(&mut res1, &resolve(&player_box(), &web_box(), &order1));
    let died2 = apply_outcomes(&mut res2, &resolve(&player_box(), &web_box(), &order2));
    assert!(!died1 && !died2);
    assert_eq!(res1, res2);
    assert_eq!(res1.score, 2);
}

#[test]
fn a_lethal_enemy_kills_in_any_order() {
    let lethal = fly_box(0, -30 * PX);
    let catchable = fly_box(30 * PX, 0);
    for enemies in [vec![lethal, catchable], vec![catchable, lethal]] {
        let outcomes = resolve(&player_box(), &web_box(), &enemies);
        let mut res = GameResources { energy: 500_000, score: 0 };
        let died = apply_outcomes(&mut res, &outcomes);
        assert!(died);
    }
}

#[test]
fn remove_caught_drops_exactly_the_caught_indices() {
    let items = vec![10u32, 11, 12, 13];
    let outcomes = vec![CollisionOutcome::EnemyCaught(1), CollisionOutcome::EnemyCaught(3)];
    let rest = remove_caught(&items, &outcomes);
    assert_eq!(rest, vec![10, 12]);
}

#[test]
fn remove_caught_keeps_everything_after_a_plain_death() {
    let items = vec![10u32, 11, 12];
    let outcomes = vec![CollisionOutcome::PlayerDied];
    let rest = remove_caught(&items, &outcomes);
    assert_eq!(rest, vec![10, 11, 12]);
}
