//! The numbers by which the game names structures, owners and units.

use vstd::prelude::*;

verus! {

/// A site without a structure.
pub const S_EMPTY: i32 = -1;

/// A mine.
pub const S_MINE: i32 = 0;

/// A tower.
pub const S_TOWER: i32 = 1;

/// A barracks.
pub const S_BARRACKS: i32 = 2;

/// Nobody owns the site.
pub const O_NO_OWNER: i32 = -1;

/// The player's own.
pub const O_FRIENDLY: i32 = 0;

/// The opponent's.
pub const O_ENEMY: i32 = 1;

/// A hero.
pub const U_QUEEN: i32 = -1;

/// A knight.
pub const U_KNIGHT: i32 = 0;

/// An archer.
pub const U_ARCHER: i32 = 1;

/// A giant.
pub const U_GIANT: i32 = 2;

} // verus!
