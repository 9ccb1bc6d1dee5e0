//! Shots against power-ups: the first shot that overlaps a power-up takes
//! it, and the power-up takes effect.

use vstd::prelude::*;
use crate::asteroid::Asteroid;
use crate::game::{Game, GameView, POWER_UP_DURATION};
use crate::geometry::{collides, overlaps, GameObject};
use crate::player::Player;
use crate::power_up::{PowerUp, PowerUpType};
use crate::projectile::Projectile;

verus! {

/// Whether `j` is the place of the first shot that overlaps the box, or,
/// where none does, the number of shots.
pub open spec fn is_first_hit(shots: Seq<Projectile>, target: GameObject, j: int) -> bool {
    &&& 0 <= j <= shots.len()
    &&& forall|k: int| 0 <= k < j ==> !overlaps((#[trigger] shots[k]).obj, target)
    &&& j < shots.len() ==> overlaps(shots[j].obj, target)
}

/// The place of the first shot that overlaps the box, or, where none does,
/// the number of shots.
pub open spec fn first_hit(shots: Seq<Projectile>, target: GameObject) -> int {
    choose|j: int| is_first_hit(shots, target, j)
}

/// There is one first hit, and no other.
pub proof fn lemma_first_hit_unique(shots: Seq<Projectile>, target: GameObject, j: int)
    requires
        is_first_hit(shots, target, j),
    ensures
        first_hit(shots, target) == j,
{
    let other = first_hit(shots, target);
    assert(is_first_hit(shots, target, other));
    if other < j {
        assert(!overlaps(shots[other].obj, target));
    }
    if j < other {
        assert(!overlaps(shots[j].obj, target));
    }
}

impl GameView {
    /// The game after a power-up of the given kind has taken effect. The
    /// bomb scores a point for every asteroid and removes them all; the
    /// other two start their timed effect.
    pub open spec fn with_effect(self, kind: PowerUpType) -> GameView {
        match kind {
            PowerUpType::ScreenClearingBomb => GameView {
                score: self.score + self.asteroids.len(),
                asteroids: Seq::empty(),
                ..self
            },
            PowerUpType::AutoShoot => GameView {
                auto_shoot_active: true,
                auto_shoot_timer: POWER_UP_DURATION as nat,
                ..self
            },
            PowerUpType::SpreadShot => GameView {
                player: Player { spread_shooting: true, ..self.player },
                triple_shoot_timer: POWER_UP_DURATION as nat,
                ..self
            },
        }
    }

    /// The game after one power-up has been held against the shots: where
    /// a shot overlaps it, the first such shot is gone and the power-up
    /// has taken effect; otherwise the power-up stays, behind those that
    /// stayed before.
    pub open spec fn collecting_one(self, bonus: PowerUp) -> GameView {
        let j = first_hit(self.projectiles, bonus.obj);
        if j < self.projectiles.len() {
            GameView { projectiles: self.projectiles.remove(j), ..self }.with_effect(bonus.power_up_type)
        } else {
            GameView { power_ups: self.power_ups.push(bonus), ..self }
        }
    }

    /// The game after the pending power-ups have been held against the
    /// shots one after the other, each against the shots that those before
    /// it have left.
    pub open spec fn collecting(self, pending: Seq<PowerUp>) -> GameView
        decreases pending.len(),
    {
        if pending.len() == 0 {
            self
        } else {
            self.collecting_one(pending.first()).collecting(pending.drop_first())
        }
    }

    /// The game after every power-up has been held against the shots, in
    /// the order of the power-ups.
    pub open spec fn after_pickups(self) -> GameView {
        GameView { power_ups: Seq::empty(), ..self }.collecting(self.power_ups)
    }
}

/// Collecting power-ups moves points from the asteroids to the score, if
/// it changes them at all: the asteroids stay or go all at once, the score
/// never goes down, and score and asteroids together never count more than
/// before. The count of destroyed asteroids, phase and playfield stay, and
/// the ship stays where it is.
pub proof fn lemma_collecting_frame(game: GameView, pending: Seq<PowerUp>)
    ensures
        game.collecting(pending).asteroids == game.asteroids || game.collecting(pending).asteroids.len() == 0,
        game.collecting(pending).score >= game.score,
        game.collecting(pending).score + game.collecting(pending).asteroids.len() <= game.score
            + game.asteroids.len(),
        game.collecting(pending).asteroids_destroyed == game.asteroids_destroyed,
        game.collecting(pending).state == game.state,
        game.collecting(pending).height == game.height,
        game.collecting(pending).width == game.width,
        game.collecting(pending).player.obj == game.player.obj,
    decreases pending.len(),
{
    if pending.len() > 0 {
        lemma_collecting_frame(game.collecting_one(pending.first()), pending.drop_first());
    }
}

/// A bomb that a shot overlaps scores a point for every asteroid in the
/// game and leaves none.
pub proof fn lemma_bomb_pickup(game: GameView, bonus: PowerUp)
    requires
        bonus.power_up_type == PowerUpType::ScreenClearingBomb,
        first_hit(game.projectiles, bonus.obj) < game.projectiles.len(),
    ensures
        game.collecting_one(bonus).score == game.score + game.asteroids.len(),
        game.collecting_one(bonus).asteroids.len() == 0,
        game.collecting_one(bonus).power_ups == game.power_ups,
{
}

impl Game {
    /// Lets a power-up of the given kind take effect.
    pub fn apply_power_up(&mut self, kind: PowerUpType)
        requires
            old(self).sound(),
            kind == PowerUpType::ScreenClearingBomb ==> old(self)@.score + old(self)@.asteroids.len()
                <= u32::MAX,
        ensures
            final(self)@ == old(self)@.with_effect(kind),
            kind == PowerUpType::ScreenClearingBomb ==> {
                &&& final(self)@.score == old(self)@.score + old(self)@.asteroids.len()
                &&& final(self)@.asteroids.len() == 0
            },
            final(self).sound(),
    {
        match kind {
            PowerUpType::ScreenClearingBomb => {
                self.score = self.score + (self.asteroids.len() as u32);
                self.asteroids.clear();
                assert(self.asteroids@ =~= Seq::<Asteroid>::empty());
            },
            PowerUpType::AutoShoot => {
                self.auto_shoot_active = true;
                self.auto_shoot_timer = POWER_UP_DURATION;
            },
            PowerUpType::SpreadShot => {
                self.player.spread_shooting = true;
                self.triple_shoot_timer = POWER_UP_DURATION;
            },
        }
    }

    /// Holds every power-up against the shots, in the order of the
    /// power-ups. The first shot that overlaps a power-up is used up on it,
    /// and the power-up takes effect and leaves the game.
    pub fn check_power_up_collisions(&mut self)
        requires
            old(self).sound(),
            old(self)@.after_pickups().score <= u32::MAX,
        ensures
            final(self)@ == old(self)@.after_pickups(),
            final(self).sound(),
    {
        let ghost start = self@;
        let bonus_count = self.power_ups.len();
        let mut kept: Vec<PowerUp> = Vec::new();
        let mut i: usize = 0;
        assert(start.power_ups.skip(0) =~= start.power_ups);
        while i < bonus_count
            invariant
                start == old(self)@,
                start.after_pickups().score <= u32::MAX,
                self.power_ups@ == start.power_ups,
                bonus_count == start.power_ups.len(),
                0 <= i <= bonus_count,
                self.sound(),
                self@.width == start.width,
                self@.height == start.height,
                forall|k: int|
                    0 <= k < kept@.len() ==> (#[trigger] kept@[k]).wf() && kept@[k].on_field(start.height),
                (GameView { power_ups: kept@, ..self@ }).collecting(start.power_ups.skip(i as int))
                    == start.after_pickups(),
            decreases bonus_count - i,
        {
            let bonus = self.power_ups[i];
            assert(bonus == self@.power_ups[i as int]);
            let shot_count = self.projectiles.len();
            let mut j: usize = 0;
            let mut hit = false;
            while j < shot_count && !hit
                invariant
                    self.sound(),
                    bonus.wf(),
                    shot_count == self.projectiles@.len(),
                    0 <= j <= shot_count,
                    forall|k: int| 0 <= k < j ==> !overlaps((#[trigger] self.projectiles@[k]).obj, bonus.obj),
                    hit ==> j < shot_count && overlaps(self.projectiles@[j as int].obj, bonus.obj),
                decreases shot_count - j + (if hit { 0int } else { 1int }),
            {
                let shot = self.projectiles[j];
                assert(shot == self@.projectiles[j as int]);
                if collides(&shot.obj, &bonus.obj) {
                    hit = true;
                } else {
                    j += 1;
                }
            }
            let ghost before = GameView { power_ups: kept@, ..self@ };
            let ghost pending = start.power_ups.skip(i as int);
            proof {
                lemma_first_hit_unique(self.projectiles@, bonus.obj, j as int);
                assert(pending.first() == bonus);
                assert(pending.drop_first() =~= start.power_ups.skip(i + 1));
                assert(before.collecting(pending) == before.collecting_one(bonus).collecting(
                    start.power_ups.skip(i + 1),
                ));
                lemma_collecting_frame(before.collecting_one(bonus), start.power_ups.skip(i + 1));
            }
            if hit {
                self.projectiles.remove(j);
                self.apply_power_up(bonus.power_up_type);
            } else {
                kept.push(bonus);
            }
            assert((GameView { power_ups: kept@, ..self@ }) == before.collecting_one(bonus));
            i += 1;
        }
        self.power_ups = kept;
    }
}

} // verus!
