//! Run-time tests of what the game's functions ask of their callers, for
//! callers that no verifier has read.

use vstd::prelude::*;
use crate::asteroid::{Asteroid, FULL_TURN};
use crate::game::{playfield_fits, Game, GameView, AUTO_SHOOT_RATE, MARGIN, TICK};
use crate::geometry::{GameObject, COORD_LIMIT, FIELD_LIMIT};
use crate::player::Player;
use crate::power_up::PowerUp;
use crate::projectile::Projectile;
use crate::state::GameState;
use crate::tick::lemma_headroom_suffices;

verus! {

fn box_is_wf(obj: &GameObject) -> (ok: bool)
    ensures
        ok == obj.wf(),
{
    0 < obj.width && obj.width <= COORD_LIMIT && 0 < obj.height && obj.height <= COORD_LIMIT
        && -COORD_LIMIT <= obj.x && obj.x <= COORD_LIMIT && -COORD_LIMIT <= obj.y && obj.y
        <= COORD_LIMIT
}

fn player_is_wf(ship: &Player) -> (ok: bool)
    ensures
        ok == ship.wf(),
{
    box_is_wf(&ship.obj) && -FIELD_LIMIT <= ship.obj.x && ship.obj.x <= FIELD_LIMIT && -FIELD_LIMIT
        <= ship.obj.y && ship.obj.y <= FIELD_LIMIT && ship.obj.width <= FIELD_LIMIT && -FIELD_LIMIT
        <= ship.dx && ship.dx <= FIELD_LIMIT
}

fn shot_is_sound(shot: &Projectile) -> (ok: bool)
    ensures
        ok == (shot.wf() && shot.obj.y >= -FIELD_LIMIT),
{
    box_is_wf(&shot.obj) && -FIELD_LIMIT <= shot.dy && shot.dy <= 0 && shot.obj.y >= -FIELD_LIMIT
}

fn rock_is_wf(rock: &Asteroid) -> (ok: bool)
    ensures
        ok == rock.wf(),
{
    box_is_wf(&rock.obj) && 0 <= rock.velocity && rock.velocity <= FIELD_LIMIT && rock.rotation
        < FULL_TURN
}

fn bonus_is_sound(bonus: &PowerUp, height: i64) -> (ok: bool)
    requires
        0 <= height <= FIELD_LIMIT,
    ensures
        ok == (bonus.wf() && bonus.on_field(height as int)),
{
    box_is_wf(&bonus.obj) && 0 <= bonus.velocity && bonus.velocity <= FIELD_LIMIT && 2 * bonus.obj.y
        - bonus.obj.height <= 2 * height
}

/// Tests whether a playfield of the given width and height has room for a
/// game.
pub fn is_playfield(window_size: [i64; 2]) -> (ok: bool)
    ensures
        ok == playfield_fits(window_size@[0] as int, window_size@[1] as int),
{
    let width = window_size[0];
    let height = window_size[1];
    width <= FIELD_LIMIT && 2 * MARGIN < width && height <= FIELD_LIMIT && 0 <= height && MARGIN < height
        / 2
}

impl Game {
    /// Tests whether the game is sound.
    pub fn is_sound(&self) -> (ok: bool)
        ensures
            ok == self.sound(),
    {
        if !is_playfield(self.window_size) || !player_is_wf(&self.player) || self.player.obj.width
            > self.window_size[0] {
            return false;
        }
        if self.spawn_asteroid_timer > u64::MAX - TICK || self.asteroid_spawn_threshold > u64::MAX - TICK {
            return false;
        }
        let mut i: usize = 0;
        while i < self.projectiles.len()
            invariant
                0 <= i <= self.projectiles@.len(),
                forall|k: int|
                    0 <= k < i ==> (#[trigger] self.projectiles@[k]).wf() && self.projectiles@[k].obj.y
                        >= -FIELD_LIMIT,
            decreases self.projectiles@.len() - i,
        {
            if !shot_is_sound(&self.projectiles[i]) {
                assert(!(self@.projectiles[i as int].wf() && self@.projectiles[i as int].obj.y >= -FIELD_LIMIT));
                return false;
            }
            i += 1;
        }
        i = 0;
        while i < self.asteroids.len()
            invariant
                0 <= i <= self.asteroids@.len(),
                forall|k: int| 0 <= k < i ==> (#[trigger] self.asteroids@[k]).wf(),
            decreases self.asteroids@.len() - i,
        {
            if !rock_is_wf(&self.asteroids[i]) {
                assert(!self@.asteroids[i as int].wf());
                return false;
            }
            i += 1;
        }
        i = 0;
        while i < self.power_ups.len()
            invariant
                0 <= self.window_size@[1] <= FIELD_LIMIT,
                0 <= i <= self.power_ups@.len(),
                forall|k: int|
                    0 <= k < i ==> (#[trigger] self.power_ups@[k]).wf() && self.power_ups@[k].on_field(
                        self@.height,
                    ),
            decreases self.power_ups@.len() - i,
        {
            if !bonus_is_sound(&self.power_ups[i], self.window_size[1]) {
                assert(!(self@.power_ups[i as int].wf() && self@.power_ups[i as int].on_field(self@.height)));
                return false;
            }
            i += 1;
        }
        true
    }

    /// Tests whether the game is well formed.
    pub fn is_well_formed(&self) -> (ok: bool)
        ensures
            ok == self.wf(),
    {
        if !self.is_sound() {
            return false;
        }
        match self.state {
            GameState::GameOver => {
                return true;
            },
            _ => {},
        }
        let mut i: usize = 0;
        while i < self.asteroids.len()
            invariant
                self.sound(),
                self.state != GameState::GameOver,
                0 <= i <= self.asteroids@.len(),
                forall|k: int| 0 <= k < i ==> (#[trigger] self.asteroids@[k]).obj.y <= self@.height,
            decreases self.asteroids@.len() - i,
        {
            if self.asteroids[i].obj.y > self.window_size[1] {
                assert(!(self@.asteroids[i as int].obj.y <= self@.height));
                return false;
            }
            i += 1;
        }
        true
    }

    /// Tests whether the counters have room for what one tick can add.
    pub fn has_headroom(&self) -> (ok: bool)
        ensures
            ok == self@.headroom(),
    {
        let shots = self.projectiles.len();
        let rocks = self.asteroids.len();
        if shots > 0xffff_ffff || rocks > 0xffff_ffff {
            assert((shots + 4) * (rocks + 1) > u32::MAX) by (nonlinear_arith)
                requires
                    shots > 0xffff_ffff || rocks > 0xffff_ffff,
                    shots >= 0,
                    rocks >= 0,
            ;
            return false;
        }
        assert((shots + 4) * (rocks + 1) <= 0x1_0000_0003 * 0x1_0000_0000) by (nonlinear_arith)
            requires
                0 <= shots <= 0xffff_ffff,
                0 <= rocks <= 0xffff_ffff,
        ;
        let pairs: u128 = (shots as u128 + 4) * (rocks as u128 + 1);
        self.score as u128 + pairs <= 0xffff_ffff && self.asteroids_destroyed as u128 + rocks as u128 + 1
            <= usize::MAX as u128
    }

    /// Tests whether the game can take a tick with these arguments. The
    /// test is [`GameView::has_room_for_tick`], which asks a little more
    /// than [`GameView::ready_for_tick`] and does not depend on chance.
    pub fn can_update(&self, some_update_args: bool, dt: u64, current_time: u64) -> (ok: bool)
        ensures
            ok == self@.has_room_for_tick(some_update_args, dt, current_time),
            ok ==> self@.ready_for_tick(some_update_args, dt, current_time),
    {
        proof {
            if self@.wf() && self@.headroom() {
                lemma_headroom_suffices(self@, some_update_args, dt, current_time);
            }
        }
        if !self.is_well_formed() {
            return false;
        }
        match self.state {
            GameState::Running => {},
            _ => {
                return true;
            },
        }
        if !self.has_headroom() {
            return false;
        }
        !(some_update_args && self.auto_shoot_active && self.auto_shoot_timer > dt) || current_time
            <= u64::MAX / AUTO_SHOOT_RATE
    }
}

} // verus!
