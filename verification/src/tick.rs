//! One tick of a running game, from the ship's move to the last power-up
//! picked up.

use vstd::prelude::*;
use crate::asteroid::Asteroid;
use crate::collisions::{hit_pairs, rock_hit_by, rock_unstruck, struck_count};
use crate::game::{Game, GameView, AUTO_SHOOT_RATE, MARGIN};
use crate::motion::{shot_in_flight, shot_step};
use crate::pickups::lemma_collecting_frame;
use crate::power_up::{PowerUp, PowerUpType};
use crate::projectile::Projectile;
use crate::spawning::milestones;
use crate::state::GameState;

verus! {

impl GameView {
    /// The game as a tick finds it once the moves are done: after them,
    /// where the tick starts with them, and as it is where not.
    pub open spec fn moved(self, advance: bool, dt: u64, now: u64) -> GameView {
        if advance {
            self.after_motion(dt, now)
        } else {
            self
        }
    }

    /// The game one tick later, `dt` microseconds after the last tick, at
    /// time `now`, where chance gave `x` for the place of a new asteroid
    /// and `fresh` for the power-ups that dropped. With `advance` the tick
    /// starts with the moves of ship, shots and power-ups and with the
    /// timed power-ups. Then the asteroids have their part, shots and
    /// asteroids are held against each other, the loss zone is checked, and
    /// shots are held against power-ups, in this order.
    pub open spec fn after_tick(self, advance: bool, dt: u64, now: u64, x: i64, fresh: Seq<PowerUp>) -> GameView {
        self.moved(advance, dt, now).after_asteroid_step(dt, x).after_collisions(fresh).after_loss_check().after_pickups()
    }

    /// How many asteroids a tick destroys by collision.
    pub open spec fn tick_struck(self, advance: bool, dt: u64, now: u64, x: i64) -> nat {
        let spawned = self.moved(advance, dt, now).after_asteroid_step(dt, x);
        struck_count(spawned.asteroids, spawned.projectiles)
    }

    /// Whether chance may give `x` and `fresh` in a tick: `x` is a place
    /// where an asteroid may appear, and `fresh` holds one power-up that
    /// may just have appeared for every tenth asteroid destroyed.
    pub open spec fn is_chance(self, advance: bool, dt: u64, now: u64, x: i64, fresh: Seq<PowerUp>) -> bool {
        &&& self.is_spawn_x(x)
        &&& self.is_drop(fresh)
        &&& fresh.len() == milestones(
            self.asteroids_destroyed,
            self.asteroids_destroyed + self.tick_struck(advance, dt, now, x),
        )
    }

    /// Whether `post` is the game one tick after this one for what chance
    /// may give.
    pub open spec fn is_tick_outcome(
        self,
        post: GameView,
        advance: bool,
        dt: u64,
        now: u64,
        x: i64,
        fresh: Seq<PowerUp>,
    ) -> bool {
        &&& self.is_chance(advance, dt, now, x, fresh)
        &&& post == self.after_tick(advance, dt, now, x, fresh)
    }

    /// Whether score and count of destroyed asteroids fit their types.
    pub open spec fn counters_fit(&self) -> bool {
        &&& self.score <= u32::MAX
        &&& self.asteroids_destroyed <= usize::MAX
    }

    /// Whether the fast clock of auto fire fits its type where a tick reads
    /// it: in a tick of a running game that starts with the moves, while
    /// auto fire has more than `dt` microseconds left.
    pub open spec fn fast_clock_fits(&self, advance: bool, dt: u64, now: u64) -> bool {
        self.state == GameState::Running && advance && self.auto_shoot_active && self.auto_shoot_timer > dt
            ==> AUTO_SHOOT_RATE * now <= u64::MAX
    }

    /// Whether the game can take a tick with these arguments: it is well
    /// formed, and if it is running, the counters fit their types after
    /// the tick, whatever chance gives, and so does the fast clock of auto
    /// fire.
    pub open spec fn ready_for_tick(&self, advance: bool, dt: u64, now: u64) -> bool {
        &&& self.wf()
        &&& self.state == GameState::Running ==> forall|x: i64, fresh: Seq<PowerUp>| #[trigger]
            self.is_chance(advance, dt, now, x, fresh) ==> self.after_tick(
                advance,
                dt,
                now,
                x,
                fresh,
            ).counters_fit()
        &&& self.fast_clock_fits(advance, dt, now)
    }

    /// Whether the counters have room for the most that one tick can add:
    /// a point for each pair of a shot and an asteroid, where the tick may
    /// bring three shots and one asteroid more than the game holds, a point
    /// for each asteroid under a bomb, and each asteroid destroyed.
    pub open spec fn headroom(&self) -> bool {
        &&& self.score + (self.projectiles.len() + 4) * (self.asteroids.len() + 1) <= u32::MAX
        &&& self.asteroids_destroyed + self.asteroids.len() + 1 <= usize::MAX
    }

    /// A test for [`GameView::ready_for_tick`] that does not look at what
    /// chance may give: it asks for [`GameView::headroom`] in place of
    /// counters that fit after the tick.
    pub open spec fn has_room_for_tick(&self, advance: bool, dt: u64, now: u64) -> bool {
        &&& self.wf()
        &&& self.state == GameState::Running ==> self.headroom()
        &&& self.fast_clock_fits(advance, dt, now)
    }
}

/// There are no more overlapping pairs than pairs.
pub proof fn lemma_hit_pairs_bound(shots: Seq<Projectile>, rocks: Seq<Asteroid>)
    ensures
        hit_pairs(shots, rocks) <= shots.len() * rocks.len(),
    decreases shots.len(),
{
    if shots.len() > 0 {
        lemma_hit_pairs_bound(shots.drop_last(), rocks);
        rocks.lemma_filter_len(rock_hit_by(shots.last().obj));
        assert((shots.len() - 1) * rocks.len() + rocks.len() == shots.len() * rocks.len())
            by (nonlinear_arith);
    } else {
        assert(shots.len() * rocks.len() == 0) by (nonlinear_arith)
            requires
                shots.len() == 0,
        ;
    }
}

/// The moves of a tick bring at most three shots more, and leave asteroids
/// and counters as they are.
pub proof fn lemma_moved_bounds(game: GameView, advance: bool, dt: u64, now: u64)
    ensures
        game.moved(advance, dt, now).projectiles.len() <= game.projectiles.len() + 3,
        game.moved(advance, dt, now).asteroids == game.asteroids,
        game.moved(advance, dt, now).score == game.score,
        game.moved(advance, dt, now).asteroids_destroyed == game.asteroids_destroyed,
        game.moved(advance, dt, now).width == game.width,
        game.moved(advance, dt, now).height == game.height,
{
    if advance {
        game.projectiles.map_values(shot_step()).lemma_filter_len(shot_in_flight());
    }
}

/// A game with headroom is ready for a tick as far as its counters go:
/// they fit their types after the tick, whatever chance gives.
pub proof fn lemma_headroom_suffices(game: GameView, advance: bool, dt: u64, now: u64)
    requires
        game.headroom(),
    ensures
        forall|x: i64, fresh: Seq<PowerUp>| #[trigger]
            game.is_chance(advance, dt, now, x, fresh) ==> game.after_tick(advance, dt, now, x, fresh).counters_fit(),
        game.wf() && game.fast_clock_fits(advance, dt, now) ==> game.ready_for_tick(advance, dt, now),
{
    assert forall|x: i64, fresh: Seq<PowerUp>| #[trigger]
        game.is_chance(advance, dt, now, x, fresh) implies game.after_tick(advance, dt, now, x, fresh).counters_fit() by {
        let shot_count = game.projectiles.len();
        let rock_count = game.asteroids.len();
        let moved = game.moved(advance, dt, now);
        lemma_moved_bounds(game, advance, dt, now);
        let spawned = moved.after_asteroid_step(dt, x);
        lemma_hit_pairs_bound(spawned.projectiles, spawned.asteroids);
        spawned.asteroids.lemma_filter_len(rock_unstruck(spawned.projectiles));
        assert(spawned.projectiles.len() * spawned.asteroids.len() <= (shot_count + 3) * (rock_count + 1))
            by (nonlinear_arith)
            requires
                spawned.projectiles.len() <= shot_count + 3,
                spawned.asteroids.len() <= rock_count + 1,
        ;
        assert((shot_count + 4) * (rock_count + 1) == (shot_count + 3) * (rock_count + 1) + (rock_count + 1))
            by (nonlinear_arith);
        let checked = spawned.after_collisions(fresh).after_loss_check();
        lemma_collecting_frame((GameView { power_ups: Seq::empty(), ..checked }), checked.power_ups);
    }
}

/// A tick leaves the ship between the side walls, whatever chance gives,
/// if it starts with the moves.
pub proof fn lemma_tick_keeps_ship_within_walls(game: GameView, dt: u64, now: u64, x: i64, fresh: Seq<PowerUp>)
    requires
        game.wf(),
    ensures
        game.after_tick(true, dt, now, x, fresh).player.within_walls(game.width),
{
    let moved = game.moved(true, dt, now);
    let cleared = moved.after_asteroid_step(dt, x).after_collisions(fresh).after_loss_check();
    lemma_collecting_frame((GameView { power_ups: Seq::empty(), ..cleared }), cleared.power_ups);
}

impl Game {
    /// Runs one tick at time `current_time`, `dt` microseconds after the
    /// last one. Only a running game changes. `some_update_args` says
    /// whether the tick comes from the fixed-rate clock, and so starts with
    /// the moves of ship, shots and power-ups.
    pub fn update(&mut self, some_update_args: bool, dt: u64, current_time: u64)
        requires
            old(self)@.ready_for_tick(some_update_args, dt, current_time),
        ensures
            old(self).state != GameState::Running ==> final(self)@ == old(self)@,
            old(self).state == GameState::Running ==> exists|x: i64, fresh: Seq<PowerUp>| #[trigger]
                old(self)@.is_tick_outcome(final(self)@, some_update_args, dt, current_time, x, fresh),
            old(self).state == GameState::Running && some_update_args ==> final(self).player.within_walls(
                final(self)@.width,
            ),
            final(self).wf(),
    {
        match self.state {
            GameState::Running => {},
            _ => {
                return ;
            },
        }
        proof {
            lemma_moved_bounds(self@, some_update_args, dt, current_time);
        }
        if some_update_args {
            self.advance_entities(dt, current_time);
        }
        let ghost moved = self@;
        assert(moved == old(self)@.moved(some_update_args, dt, current_time));
        assert(some_update_args ==> moved.player.within_walls(moved.width));
        self.update_asteroids(dt);
        let ghost spawned = self@;
        let ghost x = choose|x: i64| #[trigger] moved.is_spawn_x(x) && spawned == moved.after_asteroid_step(dt, x);
        proof {
            // Some drop is possible, so the counters fit after the collisions.
            let struck = struck_count(spawned.asteroids, spawned.projectiles);
            let count = milestones(old(self)@.asteroids_destroyed, old(self)@.asteroids_destroyed + struck);
            let any = Seq::new(count, |i: int| PowerUp::dropped(MARGIN, MARGIN, PowerUpType::AutoShoot));
            assert(old(self)@.is_chance(some_update_args, dt, current_time, x, any));
            let checked = spawned.after_collisions(any).after_loss_check();
            lemma_collecting_frame((GameView { power_ups: Seq::empty(), ..checked }), checked.power_ups);
        }
        self.check_collisions();
        let ghost cleared = self@;
        let ghost fresh = cleared.power_ups.skip(spawned.power_ups.len() as int);
        assert(old(self)@.is_chance(some_update_args, dt, current_time, x, fresh));
        self.check_game_over_conditions();
        let ghost checked = self@;
        proof {
            lemma_collecting_frame((GameView { power_ups: Seq::empty(), ..checked }), checked.power_ups);
        }
        self.check_power_up_collisions();
        assert(old(self)@.is_tick_outcome(self@, some_update_args, dt, current_time, x, fresh));
    }
}

} // verus!
