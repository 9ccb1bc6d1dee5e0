//! The game as a whole: its state, what makes a state well formed, and how
//! input changes it.

use vstd::prelude::*;
use crate::asteroid::Asteroid;
use crate::geometry::{collides, overlaps, GameObject, FIELD_LIMIT};
use crate::player::{lemma_volley_wf, steer, Player};
use crate::power_up::PowerUp;
use crate::projectile::Projectile;
use crate::state::{Control, GameState, InputEvent};
use crate::tick::lemma_headroom_suffices;

verus! {

/// One tick of the spawn timer. Timer and threshold count millionths of a
/// tick, so that the threshold can decay by whole units per microsecond.
pub const TICK: u64 = 1_000_000;

/// The spawn threshold of a fresh game, and the floor it decays to.
pub const INITIAL_SPAWN_THRESHOLD: u64 = 600_000_000;

pub const MIN_SPAWN_THRESHOLD: u64 = 100_000_000;

/// How much the spawn threshold of a fresh game decays per microsecond.
pub const SPAWN_ACCELERATION: u64 = 2;

/// Microseconds a timed power-up lasts.
pub const POWER_UP_DURATION: u64 = 7_000_000;

/// How much faster than the clock the cooldown runs under auto fire.
pub const AUTO_SHOOT_RATE: u64 = 3;

/// Distance that spawned entities keep from the walls.
pub const MARGIN: i64 = 2_000;

/// Height of the strip at the bottom that ends the game.
pub const LOSS_ZONE_HEIGHT: i64 = 2_000;

/// Every so many destroyed asteroids a power-up drops.
pub const POWER_UP_INTERVAL: usize = 10;

/// A game in progress.
#[derive(Debug)]
pub struct Game {
    pub player: Player,
    pub projectiles: Vec<Projectile>,
    pub asteroids: Vec<Asteroid>,
    /// Millionths of a tick since the last asteroid appeared.
    pub spawn_asteroid_timer: u64,
    pub state: GameState,
    /// Width and height of the playfield.
    pub window_size: [i64; 2],
    pub score: u32,
    pub asteroids_destroyed: usize,
    pub power_ups: Vec<PowerUp>,
    pub auto_shoot_active: bool,
    /// Microseconds of auto fire that are left.
    pub auto_shoot_timer: u64,
    /// Microseconds of spread fire that are left.
    pub triple_shoot_timer: u64,
    /// Millionths of a tick the spawn timer must exceed for an asteroid to
    /// appear.
    pub asteroid_spawn_threshold: u64,
    /// Decay of the spawn threshold per microsecond.
    pub asteroid_spawn_acceleration: u64,
}

/// A game as a mathematical value.
pub struct GameView {
    pub player: Player,
    pub projectiles: Seq<Projectile>,
    pub asteroids: Seq<Asteroid>,
    pub spawn_asteroid_timer: nat,
    pub state: GameState,
    pub width: int,
    pub height: int,
    pub score: nat,
    pub asteroids_destroyed: nat,
    pub power_ups: Seq<PowerUp>,
    pub auto_shoot_active: bool,
    pub auto_shoot_timer: nat,
    pub triple_shoot_timer: nat,
    pub asteroid_spawn_threshold: nat,
    pub asteroid_spawn_acceleration: nat,
}

impl View for Game {
    type V = GameView;

    open spec fn view(&self) -> GameView {
        GameView {
            player: self.player,
            projectiles: self.projectiles@,
            asteroids: self.asteroids@,
            spawn_asteroid_timer: self.spawn_asteroid_timer as nat,
            state: self.state,
            width: self.window_size@[0] as int,
            height: self.window_size@[1] as int,
            score: self.score as nat,
            asteroids_destroyed: self.asteroids_destroyed as nat,
            power_ups: self.power_ups@,
            auto_shoot_active: self.auto_shoot_active,
            auto_shoot_timer: self.auto_shoot_timer as nat,
            triple_shoot_timer: self.triple_shoot_timer as nat,
            asteroid_spawn_threshold: self.asteroid_spawn_threshold as nat,
            asteroid_spawn_acceleration: self.asteroid_spawn_acceleration as nat,
        }
    }
}

/// Whether a playfield of this size has room for what spawns on it: a strip
/// between the side margins for asteroids and power-ups, and a strip between
/// the top margin and the middle for power-ups.
pub open spec fn playfield_fits(width: int, height: int) -> bool {
    &&& 2 * MARGIN < width <= FIELD_LIMIT
    &&& MARGIN < height / 2
    &&& height <= FIELD_LIMIT
}

/// Whether the asteroid's lower edge has reached the loss zone of a
/// playfield of the given height.
pub open spec fn reaches_loss_zone(rock: Asteroid, height: int) -> bool {
    rock.obj.bottom2() >= 2 * (height - LOSS_ZONE_HEIGHT)
}

impl GameView {
    /// The state of a fresh game on a playfield of the given size.
    pub open spec fn initial(width: int, height: int) -> GameView {
        GameView {
            player: Player::initial(),
            projectiles: Seq::empty(),
            asteroids: Seq::empty(),
            spawn_asteroid_timer: 0,
            state: GameState::Running,
            width,
            height,
            score: 0,
            asteroids_destroyed: 0,
            power_ups: Seq::empty(),
            auto_shoot_active: false,
            auto_shoot_timer: 0,
            triple_shoot_timer: 0,
            asteroid_spawn_threshold: INITIAL_SPAWN_THRESHOLD as nat,
            asteroid_spawn_acceleration: SPAWN_ACCELERATION as nat,
        }
    }

    /// What every step of a tick relies on and keeps: the playfield has room
    /// for spawning, the ship fits between the walls, and every entity is
    /// well formed. Shots are not far above the playfield and power-ups have
    /// their top edge on it, so that both can make their next step within
    /// the coordinate limits. The spawn timer and its threshold leave room
    /// for one more tick.
    pub open spec fn sound(&self) -> bool {
        &&& playfield_fits(self.width, self.height)
        &&& self.player.wf()
        &&& self.player.obj.width <= self.width
        &&& forall|i: int|
            0 <= i < self.projectiles.len() ==> {
                &&& (#[trigger] self.projectiles[i]).wf()
                &&& self.projectiles[i].obj.y >= -FIELD_LIMIT
            }
        &&& forall|i: int| 0 <= i < self.asteroids.len() ==> (#[trigger] self.asteroids[i]).wf()
        &&& forall|i: int|
            0 <= i < self.power_ups.len() ==> {
                &&& (#[trigger] self.power_ups[i]).wf()
                &&& self.power_ups[i].on_field(self.height)
            }
        &&& self.spawn_asteroid_timer <= u64::MAX - TICK
        &&& self.asteroid_spawn_threshold <= u64::MAX - TICK
    }

    /// What holds of every game between two ticks: it is sound, and while
    /// it is not over every asteroid has its centre no lower than the bottom
    /// of the playfield. The loss check sees to the latter: an asteroid that
    /// low has reached the loss zone.
    pub open spec fn wf(&self) -> bool {
        &&& self.sound()
        &&& self.state != GameState::GameOver ==> forall|i: int|
            0 <= i < self.asteroids.len() ==> (#[trigger] self.asteroids[i]).obj.y <= self.height
    }

    /// Whether some asteroid has reached the loss zone.
    pub open spec fn lost(&self) -> bool {
        exists|i: int| 0 <= i < self.asteroids.len() && reaches_loss_zone(#[trigger] self.asteroids[i], self.height)
    }

    /// The game after the loss check: over if an asteroid has reached the
    /// loss zone, unchanged otherwise.
    pub open spec fn after_loss_check(self) -> GameView {
        if self.lost() {
            GameView { state: GameState::GameOver, ..self }
        } else {
            self
        }
    }

    /// The game after an input event at time `now`. The pause command swaps
    /// running and paused; the direction controls set the ship's speed from
    /// what is held; the trigger fires if the cooldown is over. Releasing
    /// anything but a direction, and the quit command, change nothing.
    pub open spec fn after_input(self, event: InputEvent, now: u64) -> GameView {
        match event {
            InputEvent::Press(Control::TogglePause) => GameView { state: self.state.toggled(), ..self },
            InputEvent::Press(Control::MoveRight) => GameView {
                player: self.player.steered(self.player.left_held, true),
                ..self
            },
            InputEvent::Press(Control::MoveLeft) => GameView {
                player: self.player.steered(true, self.player.right_held),
                ..self
            },
            InputEvent::Press(Control::Shoot) => GameView {
                player: self.player.triggered(now),
                projectiles: self.projectiles + self.player.shots(now),
                ..self
            },
            InputEvent::Release(Control::MoveRight) => GameView {
                player: self.player.steered(self.player.left_held, false),
                ..self
            },
            InputEvent::Release(Control::MoveLeft) => GameView {
                player: self.player.steered(false, self.player.right_held),
                ..self
            },
            _ => self,
        }
    }
}

/// No input leads out of a finished game.
pub proof fn lemma_game_over_stays(game: GameView, event: InputEvent, now: u64)
    requires
        game.state == GameState::GameOver,
    ensures
        game.after_input(event, now).state == GameState::GameOver,
{
}

impl Game {
    /// See [`GameView::sound`].
    pub open spec fn sound(&self) -> bool {
        self@.sound()
    }

    /// See [`GameView::wf`].
    pub open spec fn wf(&self) -> bool {
        self@.wf()
    }

    /// Starts a game on a playfield of the given width and height.
    pub fn new(window_size: [i64; 2]) -> (game: Game)
        requires
            playfield_fits(window_size@[0] as int, window_size@[1] as int),
        ensures
            game@ == GameView::initial(window_size@[0] as int, window_size@[1] as int),
            game.wf(),
            game@.headroom(),
            forall|advance: bool, dt: u64, now: u64| #[trigger] game@.ready_for_tick(advance, dt, now),
    {
        proof {
            let fresh = GameView::initial(window_size@[0] as int, window_size@[1] as int);
            assert((0 + 4) * (0 + 1) == 4) by (nonlinear_arith);
            assert forall|advance: bool, dt: u64, now: u64| #[trigger] fresh.ready_for_tick(advance, dt, now) by {
                lemma_headroom_suffices(fresh, advance, dt, now);
            }
        }
        Game {
            player: Player::new(),
            projectiles: Vec::new(),
            asteroids: Vec::new(),
            spawn_asteroid_timer: 0,
            state: GameState::Running,
            window_size,
            score: 0,
            asteroids_destroyed: 0,
            power_ups: Vec::new(),
            auto_shoot_active: false,
            auto_shoot_timer: 0,
            triple_shoot_timer: 0,
            asteroid_spawn_threshold: INITIAL_SPAWN_THRESHOLD,
            asteroid_spawn_acceleration: SPAWN_ACCELERATION,
        }
    }

    /// Applies an input event that arrived at time `current_time`.
    pub fn handle_input(&mut self, event: InputEvent, current_time: u64)
        requires
            old(self).wf(),
        ensures
            final(self)@ == old(self)@.after_input(event, current_time),
            final(self).wf(),
    {
        match event {
            InputEvent::Press(Control::TogglePause) => {
                self.state = self.state.toggle_pause();
            },
            InputEvent::Press(Control::MoveRight) => {
                self.player.right_held = true;
                self.player.dx = steer(self.player.left_held, true);
            },
            InputEvent::Press(Control::MoveLeft) => {
                self.player.left_held = true;
                self.player.dx = steer(true, self.player.right_held);
            },
            InputEvent::Press(Control::Shoot) => {
                proof {
                    lemma_volley_wf(self.player);
                }
                self.player.shoot(current_time, &mut self.projectiles);
            },
            InputEvent::Release(Control::MoveRight) => {
                self.player.right_held = false;
                self.player.dx = steer(self.player.left_held, false);
            },
            InputEvent::Release(Control::MoveLeft) => {
                self.player.left_held = false;
                self.player.dx = steer(false, self.player.right_held);
            },
            _ => {},
        }
    }

    /// Ends the game if an asteroid has reached the loss zone.
    pub fn check_game_over_conditions(&mut self)
        requires
            old(self).sound(),
        ensures
            final(self)@ == old(self)@.after_loss_check(),
            final(self).wf(),
    {
        let loss_line: i64 = 2 * (self.window_size[1] - LOSS_ZONE_HEIGHT);
        let mut i: usize = 0;
        while i < self.asteroids.len()
            invariant
                *self == *old(self),
                self.sound(),
                loss_line == 2 * (self.window_size@[1] - LOSS_ZONE_HEIGHT),
                0 <= i <= self.asteroids@.len(),
                forall|k: int| 0 <= k < i ==> !reaches_loss_zone(#[trigger] self.asteroids@[k], self@.height),
            decreases self.asteroids@.len() - i,
        {
            let rock = &self.asteroids[i];
            if 2 * rock.obj.y + rock.obj.height >= loss_line {
                assert(reaches_loss_zone(self.asteroids@[i as int], self@.height));
                self.state = GameState::GameOver;
                return;
            }
            i += 1;
        }
    }

    /// Tests two boxes for overlap.
    pub fn check_collision(&self, obj1: &GameObject, obj2: &GameObject) -> (hit: bool)
        requires
            obj1.wf(),
            obj2.wf(),
        ensures
            hit == overlaps(*obj1, *obj2),
    {
        collides(obj1, obj2)
    }

    /// Ends spread fire.
    pub fn deactivate_spread_shot(&mut self)
        ensures
            final(self)@ == (GameView { player: (Player { spread_shooting: false, ..old(self).player }), ..old(self)@ }),
    {
        self.player.spread_shooting = false;
    }
}

} // verus!
