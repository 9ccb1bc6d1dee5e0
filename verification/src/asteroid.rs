//! Rocks that fall towards the loss zone.

use vstd::prelude::*;
use crate::geometry::{GameObject, COORD_LIMIT, FIELD_LIMIT};

verus! {

/// Side of an asteroid's box.
pub const ASTEROID_SIZE: i64 = 3_000;

/// Downward speed of a fresh asteroid, per tick.
pub const ASTEROID_SPEED: i64 = 30;

/// Degrees an asteroid turns per tick.
pub const ROTATION_STEP: u32 = 2;

/// Degrees in a full turn.
pub const FULL_TURN: u32 = 360;

/// A falling rock. The rotation is for show only and stays below a full turn.
#[derive(Clone, Copy, Debug, PartialEq, Eq)]
pub struct Asteroid {
    pub obj: GameObject,
    pub velocity: i64,
    pub rotation: u32,
}

impl Asteroid {
    /// An asteroid has a well-formed box, never moves up and has turned by
    /// less than a full turn.
    pub open spec fn wf(&self) -> bool {
        &&& self.obj.wf()
        &&& 0 <= self.velocity <= FIELD_LIMIT
        &&& self.rotation < FULL_TURN
    }

    /// The asteroid that appears with its centre at `(x, y)`.
    pub open spec fn spawned(x: i64, y: i64) -> Asteroid {
        Asteroid {
            obj: GameObject { x, y, width: ASTEROID_SIZE, height: ASTEROID_SIZE },
            velocity: ASTEROID_SPEED,
            rotation: 0,
        }
    }

    /// Whether one more step keeps the asteroid within the coordinate limits.
    pub open spec fn can_advance(&self) -> bool {
        self.obj.y + self.velocity <= COORD_LIMIT
    }

    /// The asteroid one tick later: lower by its speed and turned by one
    /// rotation step, modulo a full turn.
    pub open spec fn advanced(self) -> Asteroid {
        Asteroid {
            obj: self.obj.at_y(self.obj.y + self.velocity),
            velocity: self.velocity,
            rotation: ((self.rotation + ROTATION_STEP) % (FULL_TURN as int)) as u32,
        }
    }

    /// The asteroid `n` ticks later.
    pub open spec fn advanced_by(self, n: nat) -> Asteroid
        decreases n,
    {
        if n == 0 {
            self
        } else {
            self.advanced().advanced_by((n - 1) as nat)
        }
    }

    pub fn new(x: i64, y: i64) -> (rock: Asteroid)
        requires
            -COORD_LIMIT <= x <= COORD_LIMIT,
            -COORD_LIMIT <= y <= COORD_LIMIT,
        ensures
            rock == Asteroid::spawned(x, y),
            rock.wf(),
    {
        Asteroid { obj: GameObject::new(x, y, ASTEROID_SIZE, ASTEROID_SIZE), velocity: ASTEROID_SPEED, rotation: 0 }
    }

    /// Moves the asteroid by one tick.
    pub fn update(&mut self)
        requires
            old(self).wf(),
            old(self).can_advance(),
        ensures
            *final(self) == old(self).advanced(),
            final(self).wf(),
    {
        self.obj.y = self.obj.y + self.velocity;
        self.rotation = (self.rotation + ROTATION_STEP) % FULL_TURN;
    }
}

/// An asteroid without speed keeps its box, however many ticks pass; only
/// its rotation goes on.
pub proof fn lemma_still_asteroid_stays(rock: Asteroid, n: nat)
    requires
        rock.velocity == 0,
    ensures
        rock.advanced_by(n).obj == rock.obj,
        rock.advanced_by(n).velocity == 0,
    decreases n,
{
    if n > 0 {
        assert(rock.advanced().obj == rock.obj);
        lemma_still_asteroid_stays(rock.advanced(), (n - 1) as nat);
    }
}

} // verus!
