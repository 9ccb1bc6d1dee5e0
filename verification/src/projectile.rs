//! Shots fired by the ship.

use vstd::prelude::*;
use crate::geometry::{GameObject, COORD_LIMIT, FIELD_LIMIT};

verus! {

/// Width of a shot.
pub const PROJECTILE_WIDTH: i64 = 500;

/// Height of a shot.
pub const PROJECTILE_HEIGHT: i64 = 1_000;

/// Vertical speed of a fresh shot, per tick. Negative is up.
pub const PROJECTILE_SPEED: i64 = -500;

/// A shot in flight. It keeps the speed it was fired with.
#[derive(Clone, Copy, Debug, PartialEq, Eq)]
pub struct Projectile {
    pub obj: GameObject,
    pub dy: i64,
}

impl Projectile {
    /// A shot has a well-formed box and never moves down.
    pub open spec fn wf(&self) -> bool {
        &&& self.obj.wf()
        &&& -FIELD_LIMIT <= self.dy <= 0
    }

    /// The shot that leaves the muzzle at `(x, y)`.
    pub open spec fn launched(x: i64, y: i64) -> Projectile {
        Projectile {
            obj: GameObject { x, y, width: PROJECTILE_WIDTH, height: PROJECTILE_HEIGHT },
            dy: PROJECTILE_SPEED,
        }
    }

    /// Whether one more step keeps the shot within the coordinate limits.
    pub open spec fn can_advance(&self) -> bool {
        self.obj.y + self.dy >= -COORD_LIMIT
    }

    /// The shot one tick later.
    pub open spec fn advanced(self) -> Projectile {
        Projectile { obj: self.obj.at_y(self.obj.y + self.dy), dy: self.dy }
    }

    /// The shot `n` ticks later.
    pub open spec fn advanced_by(self, n: nat) -> Projectile
        decreases n,
    {
        if n == 0 {
            self
        } else {
            self.advanced().advanced_by((n - 1) as nat)
        }
    }

    /// A shot is still in play while its centre is below the top edge of the
    /// playfield.
    pub open spec fn in_flight(&self) -> bool {
        self.obj.y > 0
    }

    pub fn new(x: i64, y: i64) -> (shot: Projectile)
        requires
            -COORD_LIMIT <= x <= COORD_LIMIT,
            -COORD_LIMIT <= y <= COORD_LIMIT,
        ensures
            shot == Projectile::launched(x, y),
            shot.wf(),
    {
        Projectile { obj: GameObject::new(x, y, PROJECTILE_WIDTH, PROJECTILE_HEIGHT), dy: PROJECTILE_SPEED }
    }

    /// Moves the shot by one tick.
    pub fn update(&mut self)
        requires
            old(self).wf(),
            old(self).can_advance(),
        ensures
            *final(self) == old(self).advanced(),
            final(self).wf(),
    {
        self.obj.y = self.obj.y + self.dy;
    }
}

/// A shot without speed stays where it is, however many ticks pass.
pub proof fn lemma_still_projectile_stays(shot: Projectile, n: nat)
    requires
        shot.dy == 0,
    ensures
        shot.advanced_by(n) == shot,
    decreases n,
{
    if n > 0 {
        assert(shot.advanced() == shot);
        lemma_still_projectile_stays(shot, (n - 1) as nat);
    }
}

} // verus!
