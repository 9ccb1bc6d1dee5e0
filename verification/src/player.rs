//! The ship: steering, the cooldown between shots, and what a shot puts on
//! the playfield.

use vstd::prelude::*;
use crate::geometry::{GameObject, FIELD_LIMIT};
use crate::projectile::Projectile;

verus! {

/// Where the ship starts, and its size.
pub const PLAYER_START_X: i64 = 30_000;

pub const PLAYER_START_Y: i64 = 55_000;

pub const PLAYER_SIZE: i64 = 2_000;

/// Horizontal speed of the ship while one direction is held, per tick.
pub const PLAYER_STEP: i64 = 333;

/// Microseconds that pass between two shots of a fresh ship.
pub const SHOT_COOLDOWN: u64 = 500_000;

/// Distance from the ship's position to the muzzle of the middle shot.
pub const MUZZLE_OFFSET: i64 = 750;

/// How far to each side of the ship's middle the outer shots of a spread
/// start, and how much lower.
pub const SPREAD_OFFSET_X: i64 = 3_000;

pub const SPREAD_OFFSET_Y: i64 = 500;

/// The ship.
#[derive(Clone, Copy, Debug, PartialEq, Eq)]
pub struct Player {
    pub obj: GameObject,
    /// Horizontal speed per tick.
    pub dx: i64,
    pub left_held: bool,
    pub right_held: bool,
    /// Time of the last shot, in microseconds.
    pub last_shot_time: u64,
    /// Microseconds that must pass between two shots.
    pub shot_cooldown: u64,
    pub spread_shooting: bool,
}

/// The speed that the held directions ask for: opposite directions cancel.
pub open spec fn steering(left_held: bool, right_held: bool) -> int {
    (if right_held { PLAYER_STEP as int } else { 0 }) - (if left_held { PLAYER_STEP as int } else { 0 })
}

/// Computes the speed that the held directions ask for.
pub fn steer(left_held: bool, right_held: bool) -> (dx: i64)
    ensures
        dx == steering(left_held, right_held),
{
    let right: i64 = if right_held { PLAYER_STEP } else { 0 };
    let left: i64 = if left_held { PLAYER_STEP } else { 0 };
    right - left
}

impl Player {
    /// The ship's box is well formed, and position, size and speed leave
    /// room for its shots within the coordinate limits.
    pub open spec fn wf(&self) -> bool {
        &&& self.obj.wf()
        &&& -FIELD_LIMIT <= self.obj.x <= FIELD_LIMIT
        &&& -FIELD_LIMIT <= self.obj.y <= FIELD_LIMIT
        &&& self.obj.width <= FIELD_LIMIT
        &&& -FIELD_LIMIT <= self.dx <= FIELD_LIMIT
    }

    /// The ship at the start of a game.
    pub open spec fn initial() -> Player {
        Player {
            obj: GameObject { x: PLAYER_START_X, y: PLAYER_START_Y, width: PLAYER_SIZE, height: PLAYER_SIZE },
            dx: 0,
            left_held: false,
            right_held: false,
            last_shot_time: 0,
            shot_cooldown: SHOT_COOLDOWN,
            spread_shooting: false,
        }
    }

    /// Whether the ship lies between the side walls of a playfield of the
    /// given width.
    pub open spec fn within_walls(&self, playfield_width: int) -> bool {
        0 <= self.obj.x <= playfield_width - self.obj.width
    }

    /// Where the ship stands after a tick: moved by its speed, and pushed
    /// back to the nearer wall where it would have left the playfield.
    pub open spec fn next_x(self, playfield_width: int) -> int {
        let x = self.obj.x + self.dx;
        if x < 0 {
            0
        } else if x > playfield_width - self.obj.width {
            playfield_width - self.obj.width
        } else {
            x
        }
    }

    /// The ship one tick later.
    pub open spec fn advanced(self, playfield_width: int) -> Player {
        Player { obj: self.obj.at_x(self.next_x(playfield_width)), ..self }
    }

    /// The ship `n` ticks later.
    pub open spec fn advanced_by(self, playfield_width: int, n: nat) -> Player
        decreases n,
    {
        if n == 0 {
            self
        } else {
            self.advanced(playfield_width).advanced_by(playfield_width, (n - 1) as nat)
        }
    }

    /// The ship with the given directions held.
    pub open spec fn steered(self, left_held: bool, right_held: bool) -> Player {
        Player { dx: steering(left_held, right_held) as i64, left_held, right_held, ..self }
    }

    /// Whether the cooldown since the last shot is over at time `now`.
    pub open spec fn cooled_down(&self, now: u64) -> bool {
        now - self.last_shot_time >= self.shot_cooldown
    }

    /// The shots of one pull of the trigger: one from the muzzle, and with
    /// spread fire two more to its sides, a little lower.
    pub open spec fn volley(&self) -> Seq<Projectile> {
        let middle = Projectile::launched((self.obj.x + MUZZLE_OFFSET) as i64, self.obj.y);
        if self.spread_shooting {
            let centre = self.obj.x + self.obj.width / 2;
            let low = (self.obj.y + SPREAD_OFFSET_Y) as i64;
            seq![
                middle,
                Projectile::launched((centre - SPREAD_OFFSET_X) as i64, low),
                Projectile::launched((centre + SPREAD_OFFSET_X) as i64, low),
            ]
        } else {
            seq![middle]
        }
    }

    /// The ship after it has fired at time `now`.
    pub open spec fn fired(self, now: u64) -> Player {
        Player { last_shot_time: now, ..self }
    }

    /// The shots that a pull of the trigger at time `now` gives: a volley
    /// when the cooldown is over, nothing before.
    pub open spec fn shots(&self, now: u64) -> Seq<Projectile> {
        if self.cooled_down(now) {
            self.volley()
        } else {
            Seq::empty()
        }
    }

    /// The ship after a pull of the trigger at time `now`.
    pub open spec fn triggered(self, now: u64) -> Player {
        if self.cooled_down(now) {
            self.fired(now)
        } else {
            self
        }
    }

    pub fn new() -> (ship: Player)
        ensures
            ship == Player::initial(),
            ship.wf(),
    {
        Player {
            obj: GameObject::new(PLAYER_START_X, PLAYER_START_Y, PLAYER_SIZE, PLAYER_SIZE),
            dx: 0,
            left_held: false,
            right_held: false,
            last_shot_time: 0,
            shot_cooldown: SHOT_COOLDOWN,
            spread_shooting: false,
        }
    }

    /// Fires if the cooldown is over, and does nothing otherwise.
    pub fn shoot(&mut self, current_time: u64, projectiles: &mut Vec<Projectile>)
        requires
            old(self).wf(),
        ensures
            *final(self) == old(self).triggered(current_time),
            final(projectiles)@ == old(projectiles)@ + old(self).shots(current_time),
    {
        if current_time >= self.last_shot_time && current_time - self.last_shot_time >= self.shot_cooldown {
            self.forced_shoot(current_time, projectiles);
        } else {
            assert(projectiles@ + Seq::<Projectile>::empty() =~= projectiles@);
        }
    }

    /// Fires whatever the cooldown says.
    pub fn forced_shoot(&mut self, current_time: u64, projectiles: &mut Vec<Projectile>)
        requires
            old(self).wf(),
        ensures
            *final(self) == old(self).fired(current_time),
            final(projectiles)@ == old(projectiles)@ + old(self).volley(),
            final(projectiles)@.len() == old(projectiles)@.len() + (if old(self).spread_shooting { 3nat } else { 1nat }),
    {
        projectiles.push(Projectile::new(self.obj.x + MUZZLE_OFFSET, self.obj.y));
        if self.spread_shooting {
            let centre: i64 = self.obj.x + self.obj.width / 2;
            let low: i64 = self.obj.y + SPREAD_OFFSET_Y;
            projectiles.push(Projectile::new(centre - SPREAD_OFFSET_X, low));
            projectiles.push(Projectile::new(centre + SPREAD_OFFSET_X, low));
        }
        self.last_shot_time = current_time;
        assert(projectiles@ =~= old(projectiles)@ + old(self).volley());
    }

    /// Moves the ship by one tick and keeps it between the side walls.
    pub fn update(&mut self, playfield_width: i64)
        requires
            old(self).wf(),
            old(self).obj.width <= playfield_width <= FIELD_LIMIT,
        ensures
            *final(self) == old(self).advanced(playfield_width as int),
            final(self).within_walls(playfield_width as int),
            final(self).wf(),
    {
        let x: i64 = self.obj.x + self.dx;
        let limit: i64 = playfield_width - self.obj.width;
        if x < 0 {
            self.obj.x = 0;
        } else if x > limit {
            self.obj.x = limit;
        } else {
            self.obj.x = x;
        }
    }
}

/// Every shot of a volley is well formed and starts no higher than the ship.
pub proof fn lemma_volley_wf(ship: Player)
    requires
        ship.wf(),
    ensures
        forall|i: int| 0 <= i < ship.volley().len() ==> {
            &&& (#[trigger] ship.volley()[i]).wf()
            &&& ship.volley()[i].obj.y >= ship.obj.y
        },
        ship.volley().len() == if ship.spread_shooting { 3nat } else { 1nat },
{
}

/// Two pulls of the trigger within the cooldown give the shots of one: the
/// first pull fires a volley, and a second pull less than a cooldown later
/// fires nothing.
pub proof fn lemma_cooldown_blocks_second_shot(ship: Player, first: u64, second: u64)
    requires
        ship.cooled_down(first),
        first <= second,
        second - first < ship.shot_cooldown,
    ensures
        ship.shots(first) == ship.volley(),
        ship.triggered(first).shots(second) == Seq::<Projectile>::empty(),
        (ship.shots(first) + ship.triggered(first).shots(second)).len() == ship.volley().len(),
        !ship.spread_shooting ==> (ship.shots(first) + ship.triggered(first).shots(second)).len() == 1,
{
}

/// A pull of the trigger once the cooldown since the last shot has passed
/// fires again.
pub proof fn lemma_cooldown_over_allows_second_shot(ship: Player, first: u64, second: u64)
    requires
        ship.cooled_down(first),
        second - first >= ship.shot_cooldown,
    ensures
        ship.triggered(first).shots(second) == ship.triggered(first).volley(),
        ship.triggered(first).volley().len() == ship.volley().len(),
        (ship.shots(first) + ship.triggered(first).shots(second)).len() == 2 * ship.volley().len(),
{
}

/// However the ship is steered, a tick leaves it between the side walls.
pub proof fn lemma_advanced_within_walls(ship: Player, playfield_width: int)
    requires
        ship.wf(),
        ship.obj.width <= playfield_width <= FIELD_LIMIT,
    ensures
        ship.advanced(playfield_width).within_walls(playfield_width),
        ship.advanced(playfield_width).wf(),
{
}

/// A ship between the walls that is not moving stays where it is, however
/// many ticks pass.
pub proof fn lemma_still_player_stays(ship: Player, playfield_width: int, n: nat)
    requires
        ship.dx == 0,
        ship.within_walls(playfield_width),
    ensures
        ship.advanced_by(playfield_width, n) == ship,
    decreases n,
{
    if n > 0 {
        assert(ship.advanced(playfield_width) == ship);
        lemma_still_player_stays(ship, playfield_width, (n - 1) as nat);
    }
}

} // verus!
