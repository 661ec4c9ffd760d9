//! Collision resolution. Every enemy box is tested against the player's
//! catch box and the tall web strip above it, in list order, with a fixed
//! priority per enemy: a bottom-edge hit on the player kills the player; any
//! other contact with the player catches the enemy; otherwise a contact with
//! the web kills the player. A death ends the sweep — no later enemy is
//! removed and no later ledger update happens on that tick — but it is a
//! normal terminal game event, never an error.

use vstd::prelude::*;
use crate::geom::{Aabb, spec_hit_from_below, hit_from_below};
use crate::ledger::{GameResources, spec_energy_after_kill, spec_score_after_kill};
use vstd::multiset::Multiset;

verus! {

/// One event produced by a collision sweep, in the order the enemies were
/// processed. `EnemyCaught` names the enemy by its index in the list that
/// was swept.
#[derive(Clone, Copy, Debug, PartialEq, Eq, Structural)]
pub enum CollisionOutcome {
    EnemyCaught(usize),
    PlayerDied,
}

/// An enemy the player catches: it touches the player's box anywhere but
/// the bottom edge.
pub open spec fn spec_catches(player: Aabb, enemy: Aabb) -> bool {
    player.spec_overlaps(enemy) && !spec_hit_from_below(player, enemy)
}

/// An enemy that kills the player: it either hits the player's bottom edge,
/// or it misses the player entirely but touches the web.
pub open spec fn spec_lethal(player: Aabb, web: Aabb, enemy: Aabb) -> bool {
    spec_hit_from_below(player, enemy) || (!player.spec_overlaps(enemy) && web.spec_overlaps(
        enemy,
    ))
}

/// The outcomes of sweeping the enemies from index `i` on: caught enemies
/// are reported in list order until the first lethal one, which ends the
/// sweep with a death.
pub open spec fn spec_resolve_from(player: Aabb, web: Aabb, enemies: Seq<Aabb>, i: int) -> Seq<
    CollisionOutcome,
>
    decreases enemies.len() - i,
{
    if i < 0 || i >= enemies.len() {
        Seq::empty()
    } else if spec_lethal(player, web, enemies[i]) {
        seq![CollisionOutcome::PlayerDied]
    } else if spec_catches(player, enemies[i]) {
        seq![CollisionOutcome::EnemyCaught(i as usize)] + spec_resolve_from(
            player,
            web,
            enemies,
            i + 1,
        )
    } else {
        spec_resolve_from(player, web, enemies, i + 1)
    }
}

/// The outcomes of sweeping a whole enemy list.
pub open spec fn spec_resolve(player: Aabb, web: Aabb, enemies: Seq<Aabb>) -> Seq<
    CollisionOutcome,
> {
    spec_resolve_from(player, web, enemies, 0)
}

/// Sweep the enemy list against the player and web boxes and report the
/// outcomes in processing order.
pub fn resolve(player_box: &Aabb, web_box: &Aabb, enemy_boxes: &Vec<Aabb>) -> (r: Vec<
    CollisionOutcome,
>)
    requires
        player_box.wf(),
        web_box.wf(),
        forall|i: int| 0 <= i < enemy_boxes@.len() ==> enemy_boxes@[i].wf(),
    ensures
        r@ == spec_resolve(*player_box, *web_box, enemy_boxes@),
{
    let mut out: Vec<CollisionOutcome> = Vec::new();
    let mut died: bool = false;
    let mut i: usize = 0;
    proof {
        assert(Seq::<CollisionOutcome>::empty() + spec_resolve_from(
            *player_box,
            *web_box,
            enemy_boxes@,
            0,
        ) =~= spec_resolve_from(*player_box, *web_box, enemy_boxes@, 0));
    }
    while i < enemy_boxes.len()
        invariant
            0 <= i <= enemy_boxes@.len(),
            player_box.wf(),
            web_box.wf(),
            forall|j: int| 0 <= j < enemy_boxes@.len() ==> enemy_boxes@[j].wf(),
            died ==> out@ == spec_resolve(*player_box, *web_box, enemy_boxes@),
            !died ==> spec_resolve(*player_box, *web_box, enemy_boxes@) == out@
                + spec_resolve_from(*player_box, *web_box, enemy_boxes@, i as int),
        decreases enemy_boxes@.len() - i,
    {
        if !died {
            let enemy = enemy_boxes[i];
            let ghost prev = out@;
            let ghost rest = spec_resolve_from(*player_box, *web_box, enemy_boxes@, i + 1);
            if hit_from_below(player_box, &enemy) {
                out.push(CollisionOutcome::PlayerDied);
                died = true;
                proof {
                    assert(out@ =~= prev + seq![CollisionOutcome::PlayerDied]);
                }
            } else if player_box.overlaps(&enemy) {
                out.push(CollisionOutcome::EnemyCaught(i));
                proof {
                    assert(out@ + rest =~= prev + (seq![
                        CollisionOutcome::EnemyCaught(i),
                    ] + rest));
                }
            } else if web_box.overlaps(&enemy) {
                out.push(CollisionOutcome::PlayerDied);
                died = true;
                proof {
                    assert(out@ =~= prev + seq![CollisionOutcome::PlayerDied]);
                }
            }
        }
        i = i + 1;
    }
    proof {
        if !died {
            assert(out@ + spec_resolve_from(*player_box, *web_box, enemy_boxes@, i as int)
                =~= out@);
        }
    }
    out
}

/// The ledger after crediting one caught enemy.
pub open spec fn spec_kill_once(res: GameResources) -> GameResources {
    GameResources {
        energy: spec_energy_after_kill(res.energy),
        score: spec_score_after_kill(res.score),
    }
}

/// The ledger after crediting `n` caught enemies in a row.
pub open spec fn spec_kills(res: GameResources, n: nat) -> GameResources
    decreases n,
{
    if n == 0 {
        res
    } else {
        spec_kill_once(spec_kills(res, (n - 1) as nat))
    }
}

/// The ledger and death flag after applying a run of outcomes in order:
/// every caught enemy before the first death is credited, and a death stops
/// all further ledger updates for the tick.
pub open spec fn spec_apply_outcomes(res: GameResources, outs: Seq<CollisionOutcome>) -> (
    GameResources,
    bool,
)
    decreases outs.len(),
{
    if outs.len() == 0 {
        (res, false)
    } else {
        let prev = spec_apply_outcomes(res, outs.drop_last());
        if prev.1 {
            (prev.0, true)
        } else {
            match outs.last() {
                CollisionOutcome::PlayerDied => (prev.0, true),
                CollisionOutcome::EnemyCaught(_) => (spec_kill_once(prev.0), false),
            }
        }
    }
}

/// Apply one tick's collision outcomes to the ledger; the returned flag
/// reports whether the player died during the sweep.
pub fn apply_outcomes(resources: &mut GameResources, outcomes: &Vec<CollisionOutcome>) -> (died:
    bool)
    requires
        old(resources).wf(),
    ensures
        final(resources).wf(),
        *final(resources) == spec_apply_outcomes(*old(resources), outcomes@).0,
        died == spec_apply_outcomes(*old(resources), outcomes@).1,
{
    let ghost res0 = *resources;
    let mut died: bool = false;
    let mut i: usize = 0;
    while i < outcomes.len()
        invariant
            0 <= i <= outcomes@.len(),
            resources.wf(),
            *resources == spec_apply_outcomes(res0, outcomes@.take(i as int)).0,
            died == spec_apply_outcomes(res0, outcomes@.take(i as int)).1,
        decreases outcomes@.len() - i,
    {
        proof {
            assert(outcomes@.take(i + 1).drop_last() =~= outcomes@.take(i as int));
        }
        if !died {
            match outcomes[i] {
                CollisionOutcome::PlayerDied => {
                    died = true;
                },
                CollisionOutcome::EnemyCaught(_) => {
                    resources.apply_kill();
                },
            }
        }
        i = i + 1;
    }
    proof {
        assert(outcomes@.take(outcomes@.len() as int) =~= outcomes@);
    }
    died
}

/// An empty enemy list yields no outcome and leaves the ledger unchanged.
pub proof fn lemma_resolve_empty(player: Aabb, web: Aabb, res: GameResources)
    ensures
        spec_resolve(player, web, Seq::<Aabb>::empty()) == Seq::<CollisionOutcome>::empty(),
        spec_apply_outcomes(res, spec_resolve(player, web, Seq::<Aabb>::empty())).0 == res,
        !spec_apply_outcomes(res, spec_resolve(player, web, Seq::<Aabb>::empty())).1,
{
}

/// Applying outcomes reports a death exactly when the run contains one.
pub proof fn lemma_apply_outcomes_died(res: GameResources, outs: Seq<CollisionOutcome>)
    ensures
        spec_apply_outcomes(res, outs).1 <==> outs.contains(CollisionOutcome::PlayerDied),
    decreases outs.len(),
{
    if outs.len() == 0 {
    } else {
        lemma_apply_outcomes_died(res, outs.drop_last());
        if outs.drop_last().contains(CollisionOutcome::PlayerDied) {
            let j = choose|j: int|
                0 <= j < outs.drop_last().len() && outs.drop_last()[j]
                    == CollisionOutcome::PlayerDied;
            assert(outs[j] == CollisionOutcome::PlayerDied);
        }
        if outs.last() == CollisionOutcome::PlayerDied {
            assert(outs[outs.len() - 1] == CollisionOutcome::PlayerDied);
        }
        if outs.contains(CollisionOutcome::PlayerDied) && outs.last()
            != CollisionOutcome::PlayerDied {
            let j = choose|j: int| 0 <= j < outs.len() && outs[j] == CollisionOutcome::PlayerDied;
            assert(outs.drop_last()[j] == CollisionOutcome::PlayerDied);
        }
    }
}

/// A sweep reports a death exactly when some enemy at or after `i` is lethal.
proof fn lemma_resolve_from_died(player: Aabb, web: Aabb, enemies: Seq<Aabb>, i: int)
    requires
        0 <= i,
    ensures
        spec_resolve_from(player, web, enemies, i).contains(CollisionOutcome::PlayerDied) <==> (
        exists|j: int| i <= j < enemies.len() && spec_lethal(player, web, enemies[j])),
    decreases enemies.len() - i,
{
    if i < 0 || i >= enemies.len() {
    } else {
        lemma_resolve_from_died(player, web, enemies, i + 1);
        let here = spec_resolve_from(player, web, enemies, i);
        let rest = spec_resolve_from(player, web, enemies, i + 1);
        if spec_lethal(player, web, enemies[i]) {
            assert(here[0] == CollisionOutcome::PlayerDied);
            assert(here.contains(CollisionOutcome::PlayerDied));
            assert(i <= i < enemies.len() && spec_lethal(player, web, enemies[i]));
        } else {
            if spec_catches(player, enemies[i]) {
                assert(here =~= seq![CollisionOutcome::EnemyCaught(i as usize)] + rest);
                if rest.contains(CollisionOutcome::PlayerDied) {
                    let j = choose|j: int|
                        0 <= j < rest.len() && rest[j] == CollisionOutcome::PlayerDied;
                    assert(here[j + 1] == CollisionOutcome::PlayerDied);
                    assert(here.contains(CollisionOutcome::PlayerDied));
                }
                if here.contains(CollisionOutcome::PlayerDied) {
                    let j = choose|j: int|
                        0 <= j < here.len() && here[j] == CollisionOutcome::PlayerDied;
                    assert(rest[j - 1] == CollisionOutcome::PlayerDied);
                    assert(rest.contains(CollisionOutcome::PlayerDied));
                }
            } else {
                assert(here == rest);
            }
            assert(here.contains(CollisionOutcome::PlayerDied) <==> rest.contains(
                CollisionOutcome::PlayerDied,
            ));
            if exists|j: int| i + 1 <= j < enemies.len() && spec_lethal(player, web, enemies[j]) {
                let j = choose|j: int|
                    i + 1 <= j < enemies.len() && spec_lethal(player, web, enemies[j]);
                assert(i <= j < enemies.len() && spec_lethal(player, web, enemies[j]));
            }
            if exists|j: int| i <= j < enemies.len() && spec_lethal(player, web, enemies[j]) {
                let j = choose|j: int|
                    i <= j < enemies.len() && spec_lethal(player, web, enemies[j]);
                assert(j != i);
                assert(i + 1 <= j < enemies.len() && spec_lethal(player, web, enemies[j]));
            }
        }
    }
}

/// A whole-list sweep reports a death exactly when some enemy in the list is
/// lethal, wherever it stands.
pub proof fn lemma_resolve_died(player: Aabb, web: Aabb, enemies: Seq<Aabb>)
    ensures
        spec_resolve(player, web, enemies).contains(CollisionOutcome::PlayerDied) <==> (exists|
            j: int,
        | 0 <= j < enemies.len() && spec_lethal(player, web, enemies[j])),
{
    lemma_resolve_from_died(player, web, enemies, 0);
}

/// How many enemies at or after `i` the player catches.
pub open spec fn spec_num_caught_from(player: Aabb, enemies: Seq<Aabb>, i: int) -> nat
    decreases enemies.len() - i,
{
    if i < 0 || i >= enemies.len() {
        0
    } else if spec_catches(player, enemies[i]) {
        1 + spec_num_caught_from(player, enemies, i + 1)
    } else {
        spec_num_caught_from(player, enemies, i + 1)
    }
}

/// How many enemies in the list the player catches.
pub open spec fn spec_num_caught(player: Aabb, enemies: Seq<Aabb>) -> nat {
    spec_num_caught_from(player, enemies, 0)
}

/// Crediting one kill and then `n` more is the same as crediting `n` and
/// then one more: kill credits commute.
proof fn lemma_kills_shift(res: GameResources, n: nat)
    ensures
        spec_kills(spec_kill_once(res), n) == spec_kill_once(spec_kills(res, n)),
    decreases n,
{
    if n > 0 {
        lemma_kills_shift(res, (n - 1) as nat);
    }
}

/// Applying a single caught-enemy outcome credits exactly one kill.
proof fn lemma_apply_single_caught(res: GameResources, k: usize)
    ensures
        spec_apply_outcomes(res, seq![CollisionOutcome::EnemyCaught(k)]) == (spec_kill_once(res), false),
{
    reveal_with_fuel(spec_apply_outcomes, 2);
    assert(seq![CollisionOutcome::EnemyCaught(k)].drop_last() =~= Seq::<
        CollisionOutcome,
    >::empty());
}

/// Applying a concatenation applies the two runs in turn, as long as the
/// first run kills nobody.
proof fn lemma_apply_outcomes_concat(
    res: GameResources,
    a: Seq<CollisionOutcome>,
    b: Seq<CollisionOutcome>,
)
    requires
        !spec_apply_outcomes(res, a).1,
    ensures
        spec_apply_outcomes(res, a + b) == spec_apply_outcomes(spec_apply_outcomes(res, a).0, b),
    decreases b.len(),
{
    if b.len() == 0 {
        assert(a + b =~= a);
    } else {
        lemma_apply_outcomes_concat(res, a, b.drop_last());
        assert((a + b).drop_last() =~= a + b.drop_last());
        assert((a + b).last() == b.last());
    }
}

/// When no enemy is lethal, a sweep credits exactly the caught enemies and
/// nobody dies: the ledger ends at `spec_kills` of the caught count.
proof fn lemma_apply_resolve_counts(
    player: Aabb,
    web: Aabb,
    enemies: Seq<Aabb>,
    res: GameResources,
    i: int,
)
    requires
        forall|j: int| 0 <= j < enemies.len() ==> !spec_lethal(player, web, enemies[j]),
        0 <= i,
    ensures
        spec_apply_outcomes(res, spec_resolve_from(player, web, enemies, i)).0 == spec_kills(
            res,
            spec_num_caught_from(player, enemies, i),
        ),
        !spec_apply_outcomes(res, spec_resolve_from(player, web, enemies, i)).1,
    decreases enemies.len() - i,
{
    if i >= enemies.len() {
    } else if spec_catches(player, enemies[i]) {
        let one = seq![CollisionOutcome::EnemyCaught(i as usize)];
        let rest = spec_resolve_from(player, web, enemies, i + 1);
        lemma_apply_single_caught(res, i as usize);
        lemma_apply_outcomes_concat(res, one, rest);
        lemma_apply_resolve_counts(player, web, enemies, spec_kill_once(res), i + 1);
        lemma_kills_shift(res, spec_num_caught_from(player, enemies, i + 1));
    } else {
        lemma_apply_resolve_counts(player, web, enemies, res, i + 1);
    }
}

/// Inserting one element into a multiset grows the part a predicate selects
/// by one exactly when the element satisfies the predicate.
proof fn lemma_filter_insert_len<T>(m: Multiset<T>, f: spec_fn(T) -> bool, v: T)
    ensures
        m.insert(v).filter(f).len() == m.filter(f).len() + (if f(v) {
            1nat
        } else {
            0nat
        }),
{
    broadcast use vstd::multiset::group_multiset_axioms, vstd::multiset::group_multiset_properties;

    if f(v) {
        assert(m.insert(v).filter(f) =~= m.filter(f).insert(v));
    } else {
        assert(m.insert(v).filter(f) =~= m.filter(f));
    }
}

/// The number of caught enemies equals the size of the catchable part of the
/// list's multiset, so it does not depend on list order.
proof fn lemma_num_caught_multiset(player: Aabb, enemies: Seq<Aabb>, f: spec_fn(Aabb) -> bool)
    requires
        forall|e: Aabb| #[trigger] f(e) == spec_catches(player, e),
    ensures
        spec_num_caught(player, enemies) == enemies.to_multiset().filter(f).len(),
    decreases enemies.len(),
{
    broadcast use vstd::multiset::group_multiset_axioms, vstd::multiset::group_multiset_properties;
    broadcast use vstd::seq_lib::group_to_multiset_ensures;

    if enemies.len() == 0 {
        assert(enemies.to_multiset().filter(f) =~= Multiset::<Aabb>::empty());
    } else {
        let front = enemies.drop_last();
        let v = enemies.last();
        lemma_num_caught_multiset(player, front, f);
        lemma_num_caught_from_snoc(player, enemies);
        assert(front.push(v) =~= enemies);
        assert(enemies.to_multiset() == front.to_multiset().insert(v));
        lemma_filter_insert_len(front.to_multiset(), f, v);
    }
}

/// Counting catches front-to-back agrees with peeling the last element off.
proof fn lemma_num_caught_from_snoc(player: Aabb, enemies: Seq<Aabb>)
    requires
        enemies.len() > 0,
    ensures
        spec_num_caught(player, enemies) == spec_num_caught(player, enemies.drop_last()) + (
        if spec_catches(player, enemies.last()) {
            1nat
        } else {
            0nat
        }),
    decreases enemies.len(),
{
    lemma_num_caught_from_offsets(player, enemies, 0);
}

/// Peeling the first element off the count, at every starting index.
proof fn lemma_num_caught_from_offsets(player: Aabb, enemies: Seq<Aabb>, i: int)
    requires
        0 <= i <= enemies.len(),
        enemies.len() > 0,
    ensures
        spec_num_caught_from(player, enemies, i) == spec_num_caught_from(
            player,
            enemies.drop_last(),
            i,
        ) + if i <= enemies.len() - 1 && spec_catches(player, enemies.last()) {
            1nat
        } else {
            0nat
        },
    decreases enemies.len() - i,
{
    if i < enemies.len() {
        lemma_num_caught_from_offsets(player, enemies, i + 1);
        if i < enemies.len() - 1 {
            assert(enemies.drop_last()[i] == enemies[i]);
        }
    }
}

/// Order independence of a tick's collision ledger. Sweeping two orderings
/// of the same batch of enemies ends the ledger in the same place when no
/// enemy in the batch is lethal; and if any single enemy in the batch is
/// lethal, both sweeps kill the player, wherever that enemy stands in each
/// order.
pub proof fn lemma_resolve_order_independent(
    player: Aabb,
    web: Aabb,
    enemies1: Seq<Aabb>,
    enemies2: Seq<Aabb>,
    res: GameResources,
)
    requires
        enemies1.to_multiset() == enemies2.to_multiset(),
    ensures
        (forall|i: int| 0 <= i < enemies1.len() ==> !spec_lethal(player, web, enemies1[i]))
            ==> spec_apply_outcomes(res, spec_resolve(player, web, enemies1))
            == spec_apply_outcomes(res, spec_resolve(player, web, enemies2)),
        (exists|i: int| 0 <= i < enemies1.len() && spec_lethal(player, web, enemies1[i])) ==> (
        spec_apply_outcomes(res, spec_resolve(player, web, enemies1)).1 && spec_apply_outcomes(
            res,
            spec_resolve(player, web, enemies2),
        ).1),
{
    broadcast use vstd::seq_lib::group_to_multiset_ensures;

    if forall|i: int| 0 <= i < enemies1.len() ==> !spec_lethal(player, web, enemies1[i]) {
        assert forall|i: int| 0 <= i < enemies2.len() implies !spec_lethal(
            player,
            web,
            enemies2[i],
        ) by {
            assert(enemies2.contains(enemies2[i]));
            assert(enemies2.to_multiset().count(enemies2[i]) > 0);
            assert(enemies1.contains(enemies2[i]));
        }
        lemma_apply_resolve_counts(player, web, enemies1, res, 0);
        lemma_apply_resolve_counts(player, web, enemies2, res, 0);
        let f = |e: Aabb| spec_catches(player, e);
        lemma_num_caught_multiset(player, enemies1, f);
        lemma_num_caught_multiset(player, enemies2, f);
    }
    if exists|i: int| 0 <= i < enemies1.len() && spec_lethal(player, web, enemies1[i]) {
        let i = choose|i: int| 0 <= i < enemies1.len() && spec_lethal(player, web, enemies1[i]);
        assert(enemies1.contains(enemies1[i]));
        assert(enemies2.to_multiset().count(enemies1[i]) > 0);
        assert(enemies2.contains(enemies1[i]));
        lemma_resolve_died(player, web, enemies1);
        lemma_resolve_died(player, web, enemies2);
        lemma_apply_outcomes_died(res, spec_resolve(player, web, enemies1));
        lemma_apply_outcomes_died(res, spec_resolve(player, web, enemies2));
    }
}

/// Whether a sweep's outcomes caught the enemy that stood at index `i`.
pub open spec fn spec_is_caught(outs: Seq<CollisionOutcome>, i: int) -> bool {
    exists|j: int| 0 <= j < outs.len() && outs[j] == CollisionOutcome::EnemyCaught(i as usize)
}

/// The elements at or after `i` that the outcomes did not catch, in order.
pub open spec fn spec_survivors_from<T>(es: Seq<T>, outs: Seq<CollisionOutcome>, i: int) -> Seq<T>
    decreases es.len() - i,
{
    if i < 0 || i >= es.len() {
        Seq::empty()
    } else if spec_is_caught(outs, i) {
        spec_survivors_from(es, outs, i + 1)
    } else {
        seq![es[i]] + spec_survivors_from(es, outs, i + 1)
    }
}

/// The elements the outcomes did not catch, in order.
pub open spec fn spec_survivors<T>(es: Seq<T>, outs: Seq<CollisionOutcome>) -> Seq<T> {
    spec_survivors_from(es, outs, 0)
}

/// Every survivor of a sweep already stood in the original list.
pub proof fn lemma_survivors_membership<T>(es: Seq<T>, outs: Seq<CollisionOutcome>, i: int)
    ensures
        forall|k: int|
            0 <= k < spec_survivors_from(es, outs, i).len() ==> es.contains(
                #[trigger] spec_survivors_from(es, outs, i)[k],
            ),
    decreases es.len() - i,
{
    if i < 0 || i >= es.len() {
    } else {
        lemma_survivors_membership(es, outs, i + 1);
        let here = spec_survivors_from(es, outs, i);
        let rest = spec_survivors_from(es, outs, i + 1);
        if !spec_is_caught(outs, i) {
            assert(here =~= seq![es[i]] + rest);
            assert forall|k: int| 0 <= k < here.len() implies es.contains(#[trigger] here[k]) by {
                if k == 0 {
                    assert(here[0] == es[i]);
                } else {
                    assert(here[k] == rest[k - 1]);
                }
            }
        }
    }
}

/// Whether the outcomes caught the enemy at index `i`.
fn is_caught(outcomes: &Vec<CollisionOutcome>, i: usize) -> (r: bool)
    ensures
        r == spec_is_caught(outcomes@, i as int),
{
    let mut j: usize = 0;
    while j < outcomes.len()
        invariant
            0 <= j <= outcomes@.len(),
            forall|k: int| 0 <= k < j ==> outcomes@[k] != CollisionOutcome::EnemyCaught(i),
        decreases outcomes@.len() - j,
    {
        match outcomes[j] {
            CollisionOutcome::EnemyCaught(k) => {
                if k == i {
                    proof {
                        assert(outcomes@[j as int] == CollisionOutcome::EnemyCaught(i));
                    }
                    return true;
                }
            },
            _ => {},
        }
        j = j + 1;
    }
    false
}

/// Drop every caught enemy from the list, keeping the rest in order.
pub fn remove_caught<T: Copy>(es: &Vec<T>, outcomes: &Vec<CollisionOutcome>) -> (r: Vec<T>)
    ensures
        r@ == spec_survivors(es@, outcomes@),
{
    let mut out: Vec<T> = Vec::new();
    let mut i: usize = 0;
    proof {
        assert(Seq::<T>::empty() + spec_survivors_from(es@, outcomes@, 0) =~= spec_survivors_from(
            es@,
            outcomes@,
            0,
        ));
    }
    while i < es.len()
        invariant
            0 <= i <= es@.len(),
            spec_survivors(es@, outcomes@) == out@ + spec_survivors_from(es@, outcomes@, i as int),
        decreases es@.len() - i,
    {
        let ghost prev = out@;
        let ghost rest = spec_survivors_from(es@, outcomes@, i + 1);
        if !is_caught(outcomes, i) {
            out.push(es[i]);
            proof {
                assert(out@ + rest =~= prev + (seq![es@[i as int]] + rest));
            }
        }
        i = i + 1;
    }
    proof {
        assert(out@ + spec_survivors_from(es@, outcomes@, i as int) =~= out@);
    }
    out
}

} // verus!
