//! How asteroids and power-ups come into the game: asteroids on a timer
//! whose threshold decays, power-ups for every tenth asteroid destroyed.

use vstd::prelude::*;
use crate::asteroid::Asteroid;
use crate::chance::random_in_range;
use crate::game::{Game, GameView, MARGIN, MIN_SPAWN_THRESHOLD, POWER_UP_INTERVAL, TICK};
use crate::power_up::{PowerUp, PowerUpType};

verus! {

/// The spawn threshold after `dt` microseconds: lower by the acceleration
/// for each microsecond, but not below [`MIN_SPAWN_THRESHOLD`].
pub open spec fn decayed_threshold(threshold: nat, acceleration: nat, dt: u64) -> nat {
    let lowered = threshold - acceleration * dt;
    if lowered < MIN_SPAWN_THRESHOLD {
        MIN_SPAWN_THRESHOLD as nat
    } else {
        lowered as nat
    }
}

/// The step of an asteroid, as a function.
pub open spec fn rock_step() -> spec_fn(Asteroid) -> Asteroid {
    |rock: Asteroid| rock.advanced()
}

/// The asteroids one tick later.
pub open spec fn advance_rocks(rocks: Seq<Asteroid>) -> Seq<Asteroid> {
    rocks.map_values(rock_step())
}

/// The kind of power-up that a roll of the three-sided die stands for.
pub open spec fn kind_of_roll(roll: i64) -> PowerUpType {
    if roll == 0 {
        PowerUpType::ScreenClearingBomb
    } else if roll == 1 {
        PowerUpType::AutoShoot
    } else {
        PowerUpType::SpreadShot
    }
}

/// How many power-ups drop while the count of destroyed asteroids goes from
/// `before` to `after`: one for every multiple of [`POWER_UP_INTERVAL`]
/// above `before` and up to `after`.
pub open spec fn milestones(before: nat, after: nat) -> nat {
    (after / (POWER_UP_INTERVAL as nat) - before / (POWER_UP_INTERVAL as nat)) as nat
}

impl GameView {
    /// Whether an asteroid appears in a tick that comes `dt` microseconds
    /// after the last: the timer, one tick further, exceeds the decayed
    /// threshold.
    pub open spec fn spawn_due(&self, dt: u64) -> bool {
        self.spawn_asteroid_timer + TICK > decayed_threshold(
            self.asteroid_spawn_threshold,
            self.asteroid_spawn_acceleration,
            dt,
        )
    }

    /// Whether an asteroid may appear at abscissa `x`: within the margins
    /// of the playfield.
    pub open spec fn is_spawn_x(&self, x: i64) -> bool {
        MARGIN <= x < self.width - MARGIN
    }

    /// Whether a power-up may appear at `(x, y)`: within the side margins,
    /// below the top margin and above the middle of the playfield.
    pub open spec fn is_drop_position(&self, x: i64, y: i64) -> bool {
        &&& MARGIN <= x < self.width - MARGIN
        &&& MARGIN <= y < self.height / 2
    }

    /// Whether the power-up is one that may just have appeared: of any
    /// kind, new in every other respect, at a position where power-ups
    /// appear.
    pub open spec fn is_fresh_bonus(&self, bonus: PowerUp) -> bool {
        &&& bonus == PowerUp::dropped(bonus.obj.x, bonus.obj.y, bonus.power_up_type)
        &&& self.is_drop_position(bonus.obj.x, bonus.obj.y)
    }

    /// Whether all of the power-ups may just have appeared.
    pub open spec fn is_drop(&self, fresh: Seq<PowerUp>) -> bool {
        forall|i: int| 0 <= i < fresh.len() ==> self.is_fresh_bonus(#[trigger] fresh[i])
    }

    /// The game with the power-ups added behind those it has.
    pub open spec fn with_bonuses(self, fresh: Seq<PowerUp>) -> GameView {
        GameView { power_ups: self.power_ups + fresh, ..self }
    }

    /// Whether every asteroid can make its next step within the coordinate
    /// limits.
    pub open spec fn asteroids_can_advance(&self) -> bool {
        forall|i: int| 0 <= i < self.asteroids.len() ==> (#[trigger] self.asteroids[i]).can_advance()
    }

    /// The game after the spawn clock has gone one tick further, `dt`
    /// microseconds after the last tick: the threshold has decayed, and the
    /// timer has gone up by a tick, or back to zero where an asteroid is
    /// due.
    pub open spec fn after_spawn_clock(self, dt: u64) -> GameView {
        GameView {
            asteroid_spawn_threshold: decayed_threshold(
                self.asteroid_spawn_threshold,
                self.asteroid_spawn_acceleration,
                dt,
            ),
            spawn_asteroid_timer: if self.spawn_due(dt) {
                0
            } else {
                self.spawn_asteroid_timer + TICK as nat
            },
            ..self
        }
    }

    /// The game after the asteroids' part of a tick, `dt` microseconds
    /// after the last tick: the spawn clock has gone on, an asteroid has
    /// appeared at the top at abscissa `x` if one was due, and every
    /// asteroid, the new one too, has made its step.
    pub open spec fn after_asteroid_step(self, dt: u64, x: i64) -> GameView {
        let rocks = if self.spawn_due(dt) {
            self.asteroids.push(Asteroid::spawned(x, 0))
        } else {
            self.asteroids
        };
        GameView { asteroids: advance_rocks(rocks), ..self.after_spawn_clock(dt) }
    }

    /// The game after the asteroid at `index` has been destroyed and the
    /// power-ups `fresh` have dropped for it.
    pub open spec fn after_destroy(self, index: int, fresh: Seq<PowerUp>) -> GameView {
        GameView {
            asteroids: self.asteroids.remove(index),
            asteroids_destroyed: self.asteroids_destroyed + 1nat,
            ..self.with_bonuses(fresh)
        }
    }
}

impl Game {
    /// Lets the spawn clock go one tick further and says whether an
    /// asteroid is due.
    pub fn advance_spawn_clock(&mut self, dt: u64) -> (due: bool)
        requires
            old(self).sound(),
        ensures
            due == old(self)@.spawn_due(dt),
            final(self)@ == old(self)@.after_spawn_clock(dt),
            final(self).sound(),
    {
        assert(self.asteroid_spawn_acceleration * dt <= u64::MAX * u64::MAX) by (nonlinear_arith)
            requires
                self.asteroid_spawn_acceleration <= u64::MAX,
                dt <= u64::MAX,
        ;
        let decay: u128 = (self.asteroid_spawn_acceleration as u128) * (dt as u128);
        if self.asteroid_spawn_threshold <= MIN_SPAWN_THRESHOLD || decay > (self.asteroid_spawn_threshold
            - MIN_SPAWN_THRESHOLD) as u128 {
            self.asteroid_spawn_threshold = MIN_SPAWN_THRESHOLD;
        } else {
            self.asteroid_spawn_threshold = self.asteroid_spawn_threshold - (decay as u64);
        }
        self.spawn_asteroid_timer = self.spawn_asteroid_timer + TICK;
        if self.spawn_asteroid_timer > self.asteroid_spawn_threshold {
            self.spawn_asteroid_timer = 0;
            true
        } else {
            false
        }
    }

    /// Moves every asteroid by one tick.
    pub fn advance_asteroids(&mut self)
        requires
            old(self).sound(),
            old(self)@.asteroids_can_advance(),
        ensures
            final(self)@ == (GameView { asteroids: advance_rocks(old(self)@.asteroids), ..old(self)@ }),
            final(self).sound(),
    {
        let mut i: usize = 0;
        while i < self.asteroids.len()
            invariant
                self@ == (GameView { asteroids: self@.asteroids, ..old(self)@ }),
                self.asteroids@.len() == old(self).asteroids@.len(),
                old(self).sound(),
                old(self)@.asteroids_can_advance(),
                0 <= i <= self.asteroids@.len(),
                forall|k: int| 0 <= k < i ==> self.asteroids@[k] == (#[trigger] old(self).asteroids@[k]).advanced(),
                forall|k: int|
                    i <= k < self.asteroids@.len() ==> self.asteroids@[k] == #[trigger] old(self).asteroids@[k],
                forall|k: int| 0 <= k < self.asteroids@.len() ==> (#[trigger] self.asteroids@[k]).wf(),
            decreases self.asteroids@.len() - i,
        {
            let mut rock = self.asteroids[i];
            assert(rock == old(self)@.asteroids[i as int]);
            rock.update();
            self.asteroids.set(i, rock);
            i += 1;
        }
        assert(self.asteroids@ =~= advance_rocks(old(self)@.asteroids));
    }

    /// Runs the asteroids' part of a tick, `dt` microseconds after the last
    /// tick. Where an asteroid is due, it appears somewhere between the
    /// margins.
    pub fn update_asteroids(&mut self, dt: u64)
        requires
            old(self).sound(),
            old(self)@.asteroids_can_advance(),
        ensures
            exists|x: i64| #[trigger]
                old(self)@.is_spawn_x(x) && final(self)@ == old(self)@.after_asteroid_step(dt, x),
            final(self).sound(),
    {
        let due = self.advance_spawn_clock(dt);
        let mut x: i64 = MARGIN;
        if due {
            x = random_in_range(MARGIN, self.window_size[0] - MARGIN);
            self.asteroids.push(Asteroid::new(x, 0));
        }
        self.advance_asteroids();
        assert(old(self)@.is_spawn_x(x) && self@ == old(self)@.after_asteroid_step(dt, x));
    }

    /// Drops the power-up that the three draws stand for: `x` and `y` give
    /// the position, `roll` the kind.
    pub fn spawn_power_up(&mut self, x: i64, y: i64, roll: i64)
        requires
            old(self).sound(),
            old(self)@.is_drop_position(x, y),
        ensures
            final(self)@ == old(self)@.with_bonuses(seq![PowerUp::dropped(x, y, kind_of_roll(roll))]),
            final(self).sound(),
    {
        let power_up_type = if roll == 0 {
            PowerUpType::ScreenClearingBomb
        } else if roll == 1 {
            PowerUpType::AutoShoot
        } else {
            PowerUpType::SpreadShot
        };
        self.power_ups.push(PowerUp::new(x, y, power_up_type));
        assert(self@.power_ups =~= old(self)@.power_ups + seq![PowerUp::dropped(x, y, kind_of_roll(roll))]);
    }

    /// Drops a power-up of a kind left to chance, somewhere between the
    /// side margins in the upper half of the playfield.
    pub fn spawn_random_power_up(&mut self)
        requires
            old(self).sound(),
        ensures
            final(self)@.power_ups.len() == old(self)@.power_ups.len() + 1,
            old(self)@.is_fresh_bonus(final(self)@.power_ups.last()),
            final(self)@ == old(self)@.with_bonuses(seq![final(self)@.power_ups.last()]),
            final(self).sound(),
    {
        let x = random_in_range(MARGIN, self.window_size[0] - MARGIN);
        let y = random_in_range(MARGIN, self.window_size[1] / 2);
        let roll = random_in_range(0, 3);
        self.spawn_power_up(x, y, roll);
    }

    /// Takes the asteroid at `asteroid_index` out of the game and counts it.
    /// Every tenth asteroid destroyed leaves a power-up behind.
    pub fn destroy_asteroid(&mut self, asteroid_index: usize)
        requires
            old(self).sound(),
            asteroid_index < old(self).asteroids@.len(),
            old(self).asteroids_destroyed < usize::MAX,
        ensures
            final(self)@.power_ups.len() == old(self)@.power_ups.len() + milestones(
                old(self)@.asteroids_destroyed,
                old(self)@.asteroids_destroyed + 1,
            ),
            milestones(old(self)@.asteroids_destroyed, old(self)@.asteroids_destroyed + 1) == (if (old(
                self,
            )@.asteroids_destroyed + 1) % (POWER_UP_INTERVAL as nat) == 0 {
                1nat
            } else {
                0nat
            }),
            old(self)@.is_drop(final(self)@.power_ups.skip(old(self)@.power_ups.len() as int)),
            final(self)@ == old(self)@.after_destroy(
                asteroid_index as int,
                final(self)@.power_ups.skip(old(self)@.power_ups.len() as int),
            ),
            final(self).sound(),
    {
        self.asteroids.remove(asteroid_index);
        self.asteroids_destroyed = self.asteroids_destroyed + 1;
        if self.asteroids_destroyed % POWER_UP_INTERVAL == 0 {
            self.spawn_random_power_up();
            assert(self@.power_ups.skip(old(self)@.power_ups.len() as int) =~= seq![self@.power_ups.last()]);
        } else {
            assert(self@.power_ups.skip(old(self)@.power_ups.len() as int) =~= Seq::<PowerUp>::empty());
            assert(old(self)@.power_ups + Seq::<PowerUp>::empty() =~= old(self)@.power_ups);
        }
    }
}

/// A power-up drops for an asteroid exactly when it is the tenth, the
/// twentieth, and so on: when the count that includes it is a multiple of
/// [`POWER_UP_INTERVAL`].
pub proof fn lemma_milestone_every_tenth(destroyed: nat)
    ensures
        milestones(destroyed, destroyed + 1) == (if (destroyed + 1) % (POWER_UP_INTERVAL as nat) == 0 {
            1nat
        } else {
            0nat
        }),
{
}

/// The power-ups of a run of destroyed asteroids are those of its parts.
pub proof fn lemma_milestones_add(before: nat, middle: nat, after: nat)
    requires
        before <= middle <= after,
    ensures
        milestones(before, after) == milestones(before, middle) + milestones(middle, after),
{
}

} // verus!
