//! The units that a turn shows.

use vstd::prelude::*;
use crate::codes::{O_FRIENDLY, U_QUEEN};
use crate::geometry::P;

verus! {

/// A unit as one turn shows it: its kind, place, owner and health.
#[derive(Clone, Copy, Debug, PartialEq, Eq, Structural)]
pub struct Unit {
    pub t_unit: i32,
    pub p: P,
    pub owner: i32,
    pub health: i32,
}

impl Unit {
    /// Whether the unit is the player's hero.
    pub open spec fn is_own_queen(self) -> bool {
        self.owner == O_FRIENDLY && self.t_unit == U_QUEEN
    }

    /// A unit of kind `unit_type` at `p`, with its owner and health.
    pub fn new(unit_type: i32, p: (i32, i32), owner: i32, health: i32) -> (unit: Unit)
        ensures
            unit == (Unit { t_unit: unit_type, p: P(p.0, p.1), owner: owner, health: health }),
    {
        Unit { t_unit: unit_type, p: P(p.0, p.1), owner, health }
    }

    /// Whether the unit is the player's hero.
    pub fn is_friendly_queen(&self) -> (b: bool)
        ensures
            b == self.is_own_queen(),
    {
        self.owner == O_FRIENDLY && self.t_unit == U_QUEEN
    }
}

} // verus!
