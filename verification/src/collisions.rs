//! Shots against asteroids: every overlapping pair scores, and whatever
//! took part in one is gone afterwards.

use vstd::prelude::*;
use crate::asteroid::Asteroid;
use crate::game::{Game, GameView};
use crate::geometry::{collides, overlaps, GameObject, FIELD_LIMIT};
use crate::power_up::PowerUp;
use crate::projectile::Projectile;
use crate::spawning::{lemma_milestones_add, milestones};

verus! {

/// Whether some shot overlaps the box.
pub open spec fn struck_by_any(target: GameObject, shots: Seq<Projectile>) -> bool {
    exists|i: int| 0 <= i < shots.len() && overlaps((#[trigger] shots[i]).obj, target)
}

/// Whether the box of a shot overlaps some asteroid.
pub open spec fn strikes_any(shot: GameObject, rocks: Seq<Asteroid>) -> bool {
    exists|j: int| 0 <= j < rocks.len() && overlaps(shot, (#[trigger] rocks[j]).obj)
}

/// The test for an asteroid that the box of a shot overlaps, as a function.
pub open spec fn rock_hit_by(shot: GameObject) -> spec_fn(Asteroid) -> bool {
    |rock: Asteroid| overlaps(shot, rock.obj)
}

/// The test for an asteroid that no shot overlaps, as a function.
pub open spec fn rock_unstruck(shots: Seq<Projectile>) -> spec_fn(Asteroid) -> bool {
    |rock: Asteroid| !struck_by_any(rock.obj, shots)
}

/// The test for a shot that overlaps no asteroid, as a function.
pub open spec fn shot_unspent(rocks: Seq<Asteroid>) -> spec_fn(Projectile) -> bool {
    |shot: Projectile| !strikes_any(shot.obj, rocks)
}

/// How many of the asteroids the box of a shot overlaps.
pub open spec fn hits_of(shot: GameObject, rocks: Seq<Asteroid>) -> nat {
    rocks.filter(rock_hit_by(shot)).len()
}

/// How many pairs of a shot and an asteroid overlap. An asteroid under two
/// shots makes two pairs.
pub open spec fn hit_pairs(shots: Seq<Projectile>, rocks: Seq<Asteroid>) -> nat
    decreases shots.len(),
{
    if shots.len() == 0 {
        0
    } else {
        hit_pairs(shots.drop_last(), rocks) + hits_of(shots.last().obj, rocks)
    }
}

/// The asteroids that no shot overlaps, in their old order.
pub open spec fn surviving_rocks(rocks: Seq<Asteroid>, shots: Seq<Projectile>) -> Seq<Asteroid> {
    rocks.filter(rock_unstruck(shots))
}

/// The shots that overlap no asteroid, in their old order.
pub open spec fn surviving_shots(shots: Seq<Projectile>, rocks: Seq<Asteroid>) -> Seq<Projectile> {
    shots.filter(shot_unspent(rocks))
}

/// How many of the asteroids some shot overlaps.
pub open spec fn struck_count(rocks: Seq<Asteroid>, shots: Seq<Projectile>) -> nat {
    (rocks.len() - surviving_rocks(rocks, shots).len()) as nat
}

impl GameView {
    /// The game after shots and asteroids have been held against each
    /// other, with `fresh` for the power-ups that dropped meanwhile. Every
    /// overlapping pair has scored a point. The asteroids and the shots of
    /// those pairs are gone, each asteroid counted as destroyed once.
    pub open spec fn after_collisions(self, fresh: Seq<PowerUp>) -> GameView {
        GameView {
            score: self.score + hit_pairs(self.projectiles, self.asteroids),
            asteroids: surviving_rocks(self.asteroids, self.projectiles),
            projectiles: surviving_shots(self.projectiles, self.asteroids),
            asteroids_destroyed: self.asteroids_destroyed + struck_count(self.asteroids, self.projectiles),
            ..self.with_bonuses(fresh)
        }
    }
}

/// One more shot strikes what the others struck, and what it overlaps.
pub proof fn lemma_struck_by_any_push(target: GameObject, shots: Seq<Projectile>, shot: Projectile)
    ensures
        struck_by_any(target, shots.push(shot)) == (struck_by_any(target, shots) || overlaps(
            shot.obj,
            target,
        )),
{
    let longer = shots.push(shot);
    if struck_by_any(target, shots) {
        let i = choose|i: int| 0 <= i < shots.len() && overlaps((#[trigger] shots[i]).obj, target);
        assert(longer[i] == shots[i]);
    }
    if overlaps(shot.obj, target) {
        assert(longer[shots.len() as int] == shot);
    }
    if struck_by_any(target, longer) {
        let i = choose|i: int| 0 <= i < longer.len() && overlaps((#[trigger] longer[i]).obj, target);
        if i < shots.len() {
            assert(shots[i] == longer[i]);
        }
    }
}

/// A shot strikes one of some more asteroids if it struck one before, or
/// overlaps the new one.
pub proof fn lemma_strikes_any_push(shot: GameObject, rocks: Seq<Asteroid>, rock: Asteroid)
    ensures
        strikes_any(shot, rocks.push(rock)) == (strikes_any(shot, rocks) || overlaps(shot, rock.obj)),
{
    let longer = rocks.push(rock);
    if strikes_any(shot, rocks) {
        let j = choose|j: int| 0 <= j < rocks.len() && overlaps(shot, (#[trigger] rocks[j]).obj);
        assert(longer[j] == rocks[j]);
    }
    if overlaps(shot, rock.obj) {
        assert(longer[rocks.len() as int] == rock);
    }
    if strikes_any(shot, longer) {
        let j = choose|j: int| 0 <= j < longer.len() && overlaps(shot, (#[trigger] longer[j]).obj);
        if j < rocks.len() {
            assert(rocks[j] == longer[j]);
        }
    }
}

/// The pairs of the first `n + 1` shots are those of the first `n` and the
/// hits of the next.
pub proof fn lemma_hit_pairs_take_succ(shots: Seq<Projectile>, rocks: Seq<Asteroid>, n: int)
    requires
        0 <= n < shots.len(),
    ensures
        hit_pairs(shots.take(n + 1), rocks) == hit_pairs(shots.take(n), rocks) + hits_of(shots[n].obj, rocks),
{
    assert(shots.take(n + 1).drop_last() =~= shots.take(n));
}

/// Some of the shots make no more pairs than all of them.
pub proof fn lemma_hit_pairs_take_le(shots: Seq<Projectile>, rocks: Seq<Asteroid>, n: int)
    requires
        0 <= n <= shots.len(),
    ensures
        hit_pairs(shots.take(n), rocks) <= hit_pairs(shots, rocks),
    decreases shots.len() - n,
{
    if n < shots.len() {
        lemma_hit_pairs_take_succ(shots, rocks, n);
        lemma_hit_pairs_take_le(shots, rocks, n + 1);
    } else {
        assert(shots.take(n) =~= shots);
    }
}

/// A shot has as many hits among some more asteroids as before, and one
/// more if it overlaps the new one.
pub proof fn lemma_hits_of_take_succ(shot: GameObject, rocks: Seq<Asteroid>, n: int)
    requires
        0 <= n < rocks.len(),
    ensures
        hits_of(shot, rocks.take(n + 1)) == hits_of(shot, rocks.take(n)) + (if overlaps(shot, rocks[n].obj) {
            1nat
        } else {
            0nat
        }),
        hits_of(shot, rocks.take(n + 1)) <= n + 1,
{
    rocks.lemma_take_succ_push(n);
    rocks.take(n).lemma_filter_len_push(rock_hit_by(shot), rocks[n]);
    rocks.take(n + 1).lemma_filter_len(rock_hit_by(shot));
}

/// The survivors among the asteroids from `n` on are those from `n + 1` on,
/// with the asteroid at `n` in front if no shot overlaps it.
pub proof fn lemma_surviving_rocks_skip(rocks: Seq<Asteroid>, shots: Seq<Projectile>, n: int)
    requires
        0 <= n < rocks.len(),
    ensures
        surviving_rocks(rocks.skip(n), shots) == (if struck_by_any(rocks[n].obj, shots) {
            Seq::<Asteroid>::empty()
        } else {
            seq![rocks[n]]
        }) + surviving_rocks(rocks.skip(n + 1), shots),
{
    assert(rocks.skip(n) =~= seq![rocks[n]] + rocks.skip(n + 1));
    rocks.skip(n + 1).lemma_filter_prepend(rocks[n], rock_unstruck(shots));
}

/// Among the asteroids from `n` on, no more are struck than among all.
pub proof fn lemma_struck_count_skip_le(rocks: Seq<Asteroid>, shots: Seq<Projectile>, n: int)
    requires
        0 <= n <= rocks.len(),
    ensures
        struck_count(rocks.skip(n), shots) <= struck_count(rocks, shots),
        surviving_rocks(rocks.skip(n), shots).len() <= rocks.len() - n,
{
    assert(rocks =~= rocks.take(n) + rocks.skip(n));
    Seq::filter_distributes_over_add(rocks.take(n), rocks.skip(n), rock_unstruck(shots));
    rocks.take(n).lemma_filter_len(rock_unstruck(shots));
    rocks.skip(n).lemma_filter_len(rock_unstruck(shots));
}

/// The survivors among the first `n + 1` shots are those among the first
/// `n`, with the next behind them if it overlaps no asteroid.
pub proof fn lemma_surviving_shots_take_succ(shots: Seq<Projectile>, rocks: Seq<Asteroid>, n: int)
    requires
        0 <= n < shots.len(),
    ensures
        surviving_shots(shots.take(n + 1), rocks) == if strikes_any(shots[n].obj, rocks) {
            surviving_shots(shots.take(n), rocks)
        } else {
            surviving_shots(shots.take(n), rocks).push(shots[n])
        },
{
    shots.lemma_take_succ_push(n);
    shots.take(n).lemma_filter_push(shots[n], shot_unspent(rocks));
}

impl Game {
    /// Holds every shot against every asteroid. Each overlapping pair
    /// scores a point; the asteroids and the shots that took part in one
    /// leave the game, the asteroids from the last to the first, each
    /// destroyed once however many shots overlap it.
    pub fn check_collisions(&mut self)
        requires
            old(self).sound(),
            old(self)@.score + hit_pairs(old(self)@.projectiles, old(self)@.asteroids) <= u32::MAX,
            old(self)@.asteroids_destroyed + struck_count(old(self)@.asteroids, old(self)@.projectiles)
                <= usize::MAX,
        ensures
            final(self)@.power_ups.len() == old(self)@.power_ups.len() + milestones(
                old(self)@.asteroids_destroyed,
                old(self)@.asteroids_destroyed + struck_count(old(self)@.asteroids, old(self)@.projectiles),
            ),
            old(self)@.is_drop(final(self)@.power_ups.skip(old(self)@.power_ups.len() as int)),
            final(self)@ == old(self)@.after_collisions(
                final(self)@.power_ups.skip(old(self)@.power_ups.len() as int),
            ),
            final(self).sound(),
    {
        let ghost shots = self.projectiles@;
        let ghost rocks = self.asteroids@;
        let shot_count = self.projectiles.len();
        let rock_count = self.asteroids.len();

        let mut rock_struck: Vec<bool> = Vec::new();
        let mut j: usize = 0;
        while j < rock_count
            invariant
                0 <= j <= rock_count,
                rock_struck@.len() == j,
                forall|k: int| 0 <= k < j ==> !(#[trigger] rock_struck@[k]),
            decreases rock_count - j,
        {
            rock_struck.push(false);
            j += 1;
        }
        assert(shots.take(0) =~= Seq::<Projectile>::empty());

        let mut shot_spent: Vec<bool> = Vec::new();
        let mut i: usize = 0;
        while i < shot_count
            invariant
                self@ == (GameView { score: self@.score, ..old(self)@ }),
                old(self).sound(),
                shots == old(self)@.projectiles,
                rocks == old(self)@.asteroids,
                shot_count == shots.len(),
                rock_count == rocks.len(),
                old(self)@.score + hit_pairs(shots, rocks) <= u32::MAX,
                0 <= i <= shot_count,
                self@.score == old(self)@.score + hit_pairs(shots.take(i as int), rocks),
                rock_struck@.len() == rock_count,
                forall|k: int|
                    0 <= k < rock_count ==> #[trigger] rock_struck@[k] == struck_by_any(
                        rocks[k].obj,
                        shots.take(i as int),
                    ),
                shot_spent@.len() == i,
                forall|k: int| 0 <= k < i ==> #[trigger] shot_spent@[k] == strikes_any(shots[k].obj, rocks),
            decreases shot_count - i,
        {
            let shot = self.projectiles[i];
            assert(shot == old(self)@.projectiles[i as int]);
            let mut hits: usize = 0;
            let mut spent = false;
            assert(rocks.take(0) =~= Seq::<Asteroid>::empty());
            proof {
                rocks.take(0).lemma_filter_len(rock_hit_by(shot.obj));
            }
            j = 0;
            while j < rock_count
                invariant
                    self@ == (GameView { score: self@.score, ..old(self)@ }),
                    old(self).sound(),
                    shots == old(self)@.projectiles,
                    rocks == old(self)@.asteroids,
                    rock_count == rocks.len(),
                    0 <= i < shots.len(),
                    shot == shots[i as int],
                    0 <= j <= rock_count,
                    hits == hits_of(shot.obj, rocks.take(j as int)),
                    hits <= j,
                    spent == strikes_any(shot.obj, rocks.take(j as int)),
                    rock_struck@.len() == rock_count,
                    forall|k: int|
                        0 <= k < j ==> #[trigger] rock_struck@[k] == struck_by_any(
                            rocks[k].obj,
                            shots.take(i + 1),
                        ),
                    forall|k: int|
                        j <= k < rock_count ==> #[trigger] rock_struck@[k] == struck_by_any(
                            rocks[k].obj,
                            shots.take(i as int),
                        ),
                decreases rock_count - j,
            {
                let rock = self.asteroids[j];
                assert(rock == old(self)@.asteroids[j as int]);
                proof {
                    lemma_hits_of_take_succ(shot.obj, rocks, j as int);
                    rocks.lemma_take_succ_push(j as int);
                    lemma_strikes_any_push(shot.obj, rocks.take(j as int), rock);
                    shots.lemma_take_succ_push(i as int);
                    lemma_struck_by_any_push(rock.obj, shots.take(i as int), shot);
                }
                if collides(&shot.obj, &rock.obj) {
                    hits = hits + 1;
                    spent = true;
                    rock_struck.set(j, true);
                }
                j += 1;
            }
            proof {
                rocks.lemma_take_len();
                lemma_hit_pairs_take_succ(shots, rocks, i as int);
                lemma_hit_pairs_take_le(shots, rocks, i + 1);
            }
            shot_spent.push(spent);
            self.score = self.score + (hits as u32);
            i += 1;
        }
        proof {
            shots.lemma_take_len();
        }
        let ghost scored = self@;
        assert(rocks.skip(rock_count as int) =~= Seq::<Asteroid>::empty());
        proof {
            rocks.skip(rock_count as int).lemma_filter_len(rock_unstruck(shots));
        }
        assert(self@.power_ups.skip(old(self)@.power_ups.len() as int) =~= Seq::<PowerUp>::empty());
        assert(self.asteroids@ =~= rocks.take(rock_count as int) + surviving_rocks(
            rocks.skip(rock_count as int),
            shots,
        ));

        j = rock_count;
        while j > 0
            invariant
                self@ == (GameView {
                    asteroids: self@.asteroids,
                    asteroids_destroyed: self@.asteroids_destroyed,
                    power_ups: self@.power_ups,
                    ..scored
                }),
                scored == (GameView { score: scored.score, ..old(self)@ }),
                scored.score == old(self)@.score + hit_pairs(shots, rocks),
                self.sound(),
                shots == old(self)@.projectiles,
                rocks == old(self)@.asteroids,
                rock_count == rocks.len(),
                old(self)@.asteroids_destroyed + struck_count(rocks, shots) <= usize::MAX,
                0 <= j <= rock_count,
                rock_struck@.len() == rock_count,
                forall|k: int| 0 <= k < rock_count ==> #[trigger] rock_struck@[k] == struck_by_any(rocks[k].obj, shots),
                self.asteroids@ == rocks.take(j as int) + surviving_rocks(rocks.skip(j as int), shots),
                self@.asteroids_destroyed == old(self)@.asteroids_destroyed + struck_count(
                    rocks.skip(j as int),
                    shots,
                ),
                self@.power_ups.len() >= old(self)@.power_ups.len(),
                self@.power_ups.take(old(self)@.power_ups.len() as int) == old(self)@.power_ups,
                self@.power_ups.len() == old(self)@.power_ups.len() + milestones(
                    old(self)@.asteroids_destroyed,
                    self@.asteroids_destroyed,
                ),
                old(self)@.is_drop(self@.power_ups.skip(old(self)@.power_ups.len() as int)),
            decreases j,
        {
            j -= 1;
            let ghost before = self@;
            proof {
                lemma_surviving_rocks_skip(rocks, shots, j as int);
                lemma_struck_count_skip_le(rocks, shots, j as int);
                lemma_struck_count_skip_le(rocks, shots, j + 1);
                rocks.lemma_take_succ_push(j as int);
            }
            if rock_struck[j] {
                assert(self.asteroids@[j as int] == rocks[j as int]);
                self.destroy_asteroid(j);
                proof {
                    let base = old(self)@.power_ups.len() as int;
                    let added = self@.power_ups.skip(before.power_ups.len() as int);
                    assert(self@.power_ups == before.power_ups + added);
                    assert(self@.power_ups.take(base) =~= before.power_ups.take(base));
                    assert(self@.power_ups.skip(base) =~= before.power_ups.skip(base) + added);
                    lemma_milestones_add(
                        old(self)@.asteroids_destroyed,
                        before.asteroids_destroyed,
                        self@.asteroids_destroyed,
                    );
                    assert(self.asteroids@ =~= rocks.take(j as int) + surviving_rocks(rocks.skip(j as int), shots));
                }
            } else {
                assert(self.asteroids@ =~= rocks.take(j as int) + surviving_rocks(rocks.skip(j as int), shots));
            }
        }
        assert(rocks.skip(0) =~= rocks);
        assert(rocks.take(0) + surviving_rocks(rocks, shots) =~= surviving_rocks(rocks, shots));
        let ghost cleared = self@;

        let mut kept: Vec<Projectile> = Vec::new();
        i = 0;
        while i < shot_count
            invariant
                self@ == cleared,
                self.sound(),
                shots == self@.projectiles,
                shot_count == shots.len(),
                0 <= i <= shot_count,
                shot_spent@.len() == shot_count,
                forall|k: int| 0 <= k < shot_count ==> #[trigger] shot_spent@[k] == strikes_any(shots[k].obj, rocks),
                kept@ == surviving_shots(shots.take(i as int), rocks),
                forall|k: int|
                    0 <= k < kept@.len() ==> (#[trigger] kept@[k]).wf() && kept@[k].obj.y >= -FIELD_LIMIT,
            decreases shot_count - i,
        {
            proof {
                lemma_surviving_shots_take_succ(shots, rocks, i as int);
            }
            if !shot_spent[i] {
                let shot = self.projectiles[i];
                assert(shot == self@.projectiles[i as int]);
                kept.push(shot);
            }
            i += 1;
        }
        proof {
            shots.lemma_take_len();
        }
        self.projectiles = kept;
        proof {
            let base = old(self)@.power_ups.len() as int;
            let fresh = self@.power_ups.skip(base);
            assert(self@.power_ups =~= self@.power_ups.take(base) + fresh);
        }
    }
}

} // verus!
