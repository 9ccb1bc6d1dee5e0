//! Bonuses that drop from the upper half of the playfield.

use vstd::prelude::*;
use crate::geometry::{GameObject, COORD_LIMIT, FIELD_LIMIT};

verus! {

/// Side of a power-up's box.
pub const POWER_UP_SIZE: i64 = 2_000;

/// Downward speed of a fresh power-up, per tick.
pub const POWER_UP_SPEED: i64 = 200;

/// What a power-up does for the ship that shoots it.
#[derive(Clone, Copy, Debug, PartialEq, Eq)]
pub enum PowerUpType {
    /// Removes every asteroid and scores a point for each.
    ScreenClearingBomb,
    /// Fires by itself for a while.
    AutoShoot,
    /// Fires three shots at a time for a while.
    SpreadShot,
}

/// A falling bonus.
#[derive(Clone, Copy, Debug, PartialEq, Eq)]
pub struct PowerUp {
    pub obj: GameObject,
    pub power_up_type: PowerUpType,
    pub velocity: i64,
}

impl PowerUp {
    /// A power-up has a well-formed box and never moves up.
    pub open spec fn wf(&self) -> bool {
        &&& self.obj.wf()
        &&& 0 <= self.velocity <= FIELD_LIMIT
    }

    /// The power-up of the given kind that appears with its centre at
    /// `(x, y)`.
    pub open spec fn dropped(x: i64, y: i64, power_up_type: PowerUpType) -> PowerUp {
        PowerUp {
            obj: GameObject { x, y, width: POWER_UP_SIZE, height: POWER_UP_SIZE },
            power_up_type,
            velocity: POWER_UP_SPEED,
        }
    }

    /// Whether one more step keeps the power-up within the coordinate limits.
    pub open spec fn can_advance(&self) -> bool {
        self.obj.y + self.velocity <= COORD_LIMIT
    }

    /// The power-up one tick later.
    pub open spec fn advanced(self) -> PowerUp {
        PowerUp {
            obj: self.obj.at_y(self.obj.y + self.velocity),
            power_up_type: self.power_up_type,
            velocity: self.velocity,
        }
    }

    /// The power-up `n` ticks later.
    pub open spec fn advanced_by(self, n: nat) -> PowerUp
        decreases n,
    {
        if n == 0 {
            self
        } else {
            self.advanced().advanced_by((n - 1) as nat)
        }
    }

    /// Whether the top edge of the power-up is still on a playfield of the
    /// given height.
    pub open spec fn on_field(&self, playfield_height: int) -> bool {
        self.obj.top2() <= 2 * playfield_height
    }

    pub fn new(x: i64, y: i64, power_up_type: PowerUpType) -> (bonus: PowerUp)
        requires
            -COORD_LIMIT <= x <= COORD_LIMIT,
            -COORD_LIMIT <= y <= COORD_LIMIT,
        ensures
            bonus == PowerUp::dropped(x, y, power_up_type),
            bonus.wf(),
    {
        PowerUp { obj: GameObject::new(x, y, POWER_UP_SIZE, POWER_UP_SIZE), power_up_type, velocity: POWER_UP_SPEED }
    }

    /// Moves the power-up by one tick.
    pub fn update(&mut self)
        requires
            old(self).wf(),
            old(self).can_advance(),
        ensures
            *final(self) == old(self).advanced(),
            final(self).wf(),
    {
        self.obj.y = self.obj.y + self.velocity;
    }
}

/// A power-up without speed stays where it is, however many ticks pass.
pub proof fn lemma_still_power_up_stays(bonus: PowerUp, n: nat)
    requires
        bonus.velocity == 0,
    ensures
        bonus.advanced_by(n) == bonus,
    decreases n,
{
    if n > 0 {
        assert(bonus.advanced() == bonus);
        lemma_still_power_up_stays(bonus, (n - 1) as nat);
    }
}

} // verus!
