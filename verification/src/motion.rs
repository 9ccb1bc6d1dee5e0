//! The first half of a tick: the ship, the shots and the power-ups move,
//! and the timed power-ups run down.

use vstd::prelude::*;
use crate::game::{Game, GameView, AUTO_SHOOT_RATE};
use crate::player::{lemma_volley_wf, Player};
use crate::power_up::PowerUp;
use crate::projectile::Projectile;

verus! {

/// The step of a shot, as a function.
pub open spec fn shot_step() -> spec_fn(Projectile) -> Projectile {
    |shot: Projectile| shot.advanced()
}

/// The test that keeps a shot in play, as a function.
pub open spec fn shot_in_flight() -> spec_fn(Projectile) -> bool {
    |shot: Projectile| shot.in_flight()
}

/// The shots one tick later, in their old order: each has moved, and those
/// that have reached the top of the playfield are gone.
pub open spec fn advance_shots(shots: Seq<Projectile>) -> Seq<Projectile> {
    shots.map_values(shot_step()).filter(shot_in_flight())
}

/// The step of a power-up, as a function.
pub open spec fn bonus_step() -> spec_fn(PowerUp) -> PowerUp {
    |bonus: PowerUp| bonus.advanced()
}

/// The test that keeps a power-up on a playfield of the given height, as a
/// function.
pub open spec fn bonus_on_field(height: int) -> spec_fn(PowerUp) -> bool {
    |bonus: PowerUp| bonus.on_field(height)
}

/// The power-ups one tick later, in their old order: each has moved, and
/// those that have fallen out of the playfield are gone.
pub open spec fn advance_bonuses(bonuses: Seq<PowerUp>, height: int) -> Seq<PowerUp> {
    bonuses.map_values(bonus_step()).filter(bonus_on_field(height))
}

/// Advancing the shots goes shot by shot.
pub proof fn lemma_advance_shots_push(shots: Seq<Projectile>, shot: Projectile)
    ensures
        advance_shots(shots.push(shot)) == if shot.advanced().in_flight() {
            advance_shots(shots).push(shot.advanced())
        } else {
            advance_shots(shots)
        },
{
    shots.lemma_push_map_commute(shot_step(), shot);
    shots.map_values(shot_step()).lemma_filter_push(shot.advanced(), shot_in_flight());
}

/// Advancing the power-ups goes power-up by power-up.
pub proof fn lemma_advance_bonuses_push(bonuses: Seq<PowerUp>, bonus: PowerUp, height: int)
    ensures
        advance_bonuses(bonuses.push(bonus), height) == if bonus.advanced().on_field(height) {
            advance_bonuses(bonuses, height).push(bonus.advanced())
        } else {
            advance_bonuses(bonuses, height)
        },
{
    bonuses.lemma_push_map_commute(bonus_step(), bonus);
    bonuses.map_values(bonus_step()).lemma_filter_push(bonus.advanced(), bonus_on_field(height));
}

impl GameView {
    /// The game after the ship has moved.
    pub open spec fn after_player_step(self) -> GameView {
        GameView { player: self.player.advanced(self.width), ..self }
    }

    /// The game after the shots have moved.
    pub open spec fn after_projectile_step(self) -> GameView {
        GameView { projectiles: advance_shots(self.projectiles), ..self }
    }

    /// The game after the power-ups have moved.
    pub open spec fn after_power_up_step(self) -> GameView {
        GameView { power_ups: advance_bonuses(self.power_ups, self.height), ..self }
    }

    /// The game after auto fire has had its turn at time `now`, `dt`
    /// microseconds after the last tick. Without auto fire nothing happens.
    /// When the time that is left is no more than `dt`, auto fire ends with
    /// one volley that no cooldown holds back. Otherwise the time left goes
    /// down by `dt` and the trigger is pulled on a clock that runs
    /// [`AUTO_SHOOT_RATE`] times as fast.
    pub open spec fn after_auto_fire(self, dt: u64, now: u64) -> GameView {
        if !self.auto_shoot_active {
            self
        } else if self.auto_shoot_timer <= dt {
            GameView {
                auto_shoot_active: false,
                auto_shoot_timer: 0,
                player: self.player.fired(now),
                projectiles: self.projectiles + self.player.volley(),
                ..self
            }
        } else {
            let fast = (AUTO_SHOOT_RATE * now) as u64;
            GameView {
                auto_shoot_timer: (self.auto_shoot_timer - dt) as nat,
                player: self.player.triggered(fast),
                projectiles: self.projectiles + self.player.shots(fast),
                ..self
            }
        }
    }

    /// The game after spread fire has run down by `dt` microseconds: it ends
    /// when the time that is left is no more than `dt`.
    pub open spec fn after_spread_timer(self, dt: u64) -> GameView {
        if !self.player.spread_shooting {
            self
        } else if self.triple_shoot_timer <= dt {
            GameView {
                triple_shoot_timer: 0,
                player: Player { spread_shooting: false, ..self.player },
                ..self
            }
        } else {
            GameView { triple_shoot_timer: (self.triple_shoot_timer - dt) as nat, ..self }
        }
    }

    /// The game after the first half of a tick: the ship, the shots and the
    /// power-ups have moved, then auto fire and spread fire have run down,
    /// in this order.
    pub open spec fn after_motion(self, dt: u64, now: u64) -> GameView {
        self.after_player_step().after_projectile_step().after_power_up_step().after_auto_fire(
            dt,
            now,
        ).after_spread_timer(dt)
    }
}

impl Game {
    /// Moves every shot and drops those that have reached the top.
    pub fn advance_projectiles(&mut self)
        requires
            old(self).sound(),
        ensures
            final(self)@ == old(self)@.after_projectile_step(),
            final(self).sound(),
    {
        let mut kept: Vec<Projectile> = Vec::new();
        let mut i: usize = 0;
        while i < self.projectiles.len()
            invariant
                *self == *old(self),
                self.sound(),
                0 <= i <= self.projectiles@.len(),
                kept@ == advance_shots(self.projectiles@.take(i as int)),
                forall|k: int| 0 <= k < kept@.len() ==> (#[trigger] kept@[k]).wf() && kept@[k].obj.y > 0,
            decreases self.projectiles@.len() - i,
        {
            let mut shot = self.projectiles[i];
            assert(shot == self@.projectiles[i as int]);
            shot.update();
            proof {
                self.projectiles@.lemma_take_succ_push(i as int);
                lemma_advance_shots_push(self.projectiles@.take(i as int), self.projectiles@[i as int]);
            }
            if shot.obj.y > 0 {
                kept.push(shot);
            }
            i += 1;
        }
        proof {
            self.projectiles@.lemma_take_len();
        }
        self.projectiles = kept;
    }

    /// Moves every power-up and drops those that have left the playfield.
    pub fn advance_power_ups(&mut self)
        requires
            old(self).sound(),
        ensures
            final(self)@ == old(self)@.after_power_up_step(),
            final(self).sound(),
    {
        let mut kept: Vec<PowerUp> = Vec::new();
        let bottom2: i64 = 2 * self.window_size[1];
        let mut i: usize = 0;
        while i < self.power_ups.len()
            invariant
                *self == *old(self),
                self.sound(),
                bottom2 == 2 * self@.height,
                0 <= i <= self.power_ups@.len(),
                kept@ == advance_bonuses(self.power_ups@.take(i as int), self@.height),
                forall|k: int|
                    0 <= k < kept@.len() ==> (#[trigger] kept@[k]).wf() && kept@[k].on_field(self@.height),
            decreases self.power_ups@.len() - i,
        {
            let mut bonus = self.power_ups[i];
            assert(bonus == self@.power_ups[i as int]);
            bonus.update();
            proof {
                self.power_ups@.lemma_take_succ_push(i as int);
                lemma_advance_bonuses_push(
                    self.power_ups@.take(i as int),
                    self.power_ups@[i as int],
                    self@.height,
                );
            }
            if 2 * bonus.obj.y - bonus.obj.height <= bottom2 {
                kept.push(bonus);
            }
            i += 1;
        }
        proof {
            self.power_ups@.lemma_take_len();
        }
        self.power_ups = kept;
    }

    /// Gives auto fire its turn in a tick at time `current_time`, `dt`
    /// microseconds after the last one.
    pub fn run_auto_shoot(&mut self, dt: u64, current_time: u64)
        requires
            old(self).sound(),
            old(self).auto_shoot_active && old(self).auto_shoot_timer > dt ==> AUTO_SHOOT_RATE
                * current_time <= u64::MAX,
        ensures
            final(self)@ == old(self)@.after_auto_fire(dt, current_time),
            final(self).sound(),
    {
        if self.auto_shoot_active {
            proof {
                lemma_volley_wf(self.player);
            }
            if self.auto_shoot_timer <= dt {
                self.auto_shoot_active = false;
                self.auto_shoot_timer = 0;
                self.player.forced_shoot(current_time, &mut self.projectiles);
            } else {
                self.auto_shoot_timer = self.auto_shoot_timer - dt;
                self.player.shoot(AUTO_SHOOT_RATE * current_time, &mut self.projectiles);
            }
        }
    }

    /// Lets spread fire run down by `dt` microseconds.
    pub fn run_spread_timer(&mut self, dt: u64)
        requires
            old(self).sound(),
        ensures
            final(self)@ == old(self)@.after_spread_timer(dt),
            final(self).sound(),
    {
        if self.player.spread_shooting {
            if self.triple_shoot_timer <= dt {
                self.deactivate_spread_shot();
                self.triple_shoot_timer = 0;
            } else {
                self.triple_shoot_timer = self.triple_shoot_timer - dt;
            }
        }
    }

    /// Runs the first half of a tick.
    pub fn advance_entities(&mut self, dt: u64, current_time: u64)
        requires
            old(self).sound(),
            old(self).auto_shoot_active && old(self).auto_shoot_timer > dt ==> AUTO_SHOOT_RATE
                * current_time <= u64::MAX,
        ensures
            final(self)@ == old(self)@.after_motion(dt, current_time),
            final(self).sound(),
    {
        self.player.update(self.window_size[0]);
        self.advance_projectiles();
        self.advance_power_ups();
        self.run_auto_shoot(dt, current_time);
        self.run_spread_timer(dt);
    }
}

} // verus!
