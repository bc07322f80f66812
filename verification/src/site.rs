//! Building sites: what stands on one, whose it is, and what a mine holds.

use vstd::prelude::*;
use crate::codes::{O_ENEMY, O_FRIENDLY, O_NO_OWNER, S_BARRACKS, S_EMPTY, S_MINE, S_TOWER};
use crate::geometry::P;
use crate::search::Place;

verus! {

/// Who owns the structure on a site.
#[derive(Clone, Copy, Debug, PartialEq, Eq, Structural)]
pub enum OwnerType {
    Friendly,
    Enemy,
    NoOwner,
}

impl OwnerType {
    /// The owner that the number `val` stands for: 0 is the player, 1 the
    /// opponent, every other number nobody.
    pub open spec fn decode(val: int) -> OwnerType {
        if val == O_FRIENDLY {
            OwnerType::Friendly
        } else if val == O_ENEMY {
            OwnerType::Enemy
        } else {
            OwnerType::NoOwner
        }
    }

    /// Reads an owner from its number.
    pub fn from(val: i32) -> (owner: OwnerType)
        ensures
            owner == OwnerType::decode(val as int),
    {
        match val {
            O_FRIENDLY => OwnerType::Friendly,
            O_ENEMY => OwnerType::Enemy,
            _ => OwnerType::NoOwner,
        }
    }

    /// The number that stands for the owner: 0 for the player, 1 for the
    /// opponent, -1 for nobody. Read back, it gives the owner again.
    pub fn code(self) -> (code: i32)
        ensures
            code == match self {
                OwnerType::Friendly => O_FRIENDLY,
                OwnerType::Enemy => O_ENEMY,
                OwnerType::NoOwner => O_NO_OWNER,
            },
            OwnerType::decode(code as int) == self,
    {
        match self {
            OwnerType::Friendly => O_FRIENDLY,
            OwnerType::Enemy => O_ENEMY,
            OwnerType::NoOwner => O_NO_OWNER,
        }
    }
}

/// What stands on a site.
#[derive(Clone, Copy, Debug, PartialEq, Eq, Structural)]
pub enum SiteType {
    Mine,
    Tower,
    Barracks,
    Empty,
}

impl SiteType {
    /// The structure that the number `val` stands for: 0 is a mine, 1 a
    /// tower, 2 a barracks, every other number an empty site.
    pub open spec fn decode(val: int) -> SiteType {
        if val == S_MINE {
            SiteType::Mine
        } else if val == S_TOWER {
            SiteType::Tower
        } else if val == S_BARRACKS {
            SiteType::Barracks
        } else {
            SiteType::Empty
        }
    }

    /// Reads a structure from its number.
    pub fn from(val: i32) -> (kind: SiteType)
        ensures
            kind == SiteType::decode(val as int),
    {
        match val {
            S_MINE => SiteType::Mine,
            S_TOWER => SiteType::Tower,
            S_BARRACKS => SiteType::Barracks,
            _ => SiteType::Empty,
        }
    }

    /// The number that stands for the structure: 0 for a mine, 1 for a
    /// tower, 2 for a barracks, -1 for an empty site. Read back, it gives the
    /// structure again.
    pub fn code(self) -> (code: i32)
        ensures
            code == match self {
                SiteType::Mine => S_MINE,
                SiteType::Tower => S_TOWER,
                SiteType::Barracks => S_BARRACKS,
                SiteType::Empty => S_EMPTY,
            },
            SiteType::decode(code as int) == self,
    {
        match self {
            SiteType::Mine => S_MINE,
            SiteType::Tower => S_TOWER,
            SiteType::Barracks => S_BARRACKS,
            SiteType::Empty => S_EMPTY,
        }
    }
}

/// An owner cast to a number reads back as the same owner.
pub proof fn lemma_owner_cast_reads_back(owner: OwnerType)
    ensures
        OwnerType::decode(owner as i32 as int) == owner,
{
}

/// A structure cast to a number reads back as the same structure.
pub proof fn lemma_structure_cast_reads_back(kind: SiteType)
    ensures
        SiteType::decode(kind as i32 as int) == kind,
{
}

/// What is known of a mine: the gold left in the ground, and how far the
/// mine can be upgraded.
#[derive(Clone, Copy, Debug, PartialEq, Eq, Structural)]
pub struct SiteOptions {
    pub gold_remaining: i32,
    pub max_mine_size: i32,
}

impl SiteOptions {
    /// The attributes of a mine with `g` gold left that can grow to size `m`.
    pub fn new(g: i32, m: i32) -> (options: SiteOptions)
        ensures
            options == (SiteOptions { gold_remaining: g, max_mine_size: m }),
    {
        SiteOptions { gold_remaining: g, max_mine_size: m }
    }
}

/// One site of the map. Its identifier, place and radius are fixed; what
/// stands on it, its owner and a mine's attributes change from turn to turn.
#[derive(Clone, Copy, Debug, PartialEq, Eq, Structural)]
pub struct CommonSite {
    pub site_id: i32,
    pub p: P,
    pub radius: i32,
    pub options: Option<SiteOptions>,
    pub s_type: SiteType,
    pub s_owner: OwnerType,
}

impl CommonSite {
    /// The site as the latest observation shows it. The attributes are kept
    /// for a mine and dropped for anything else.
    pub open spec fn observed(self, s_type: int, s_owner: int, options: SiteOptions) -> CommonSite {
        CommonSite {
            s_type: SiteType::decode(s_type),
            s_owner: OwnerType::decode(s_owner),
            options: if SiteType::decode(s_type) == SiteType::Mine {
                Some(options)
            } else {
                None
            },
            ..self
        }
    }

    /// Whether the site holds a structure of kind `s` that belongs to `owner`.
    pub open spec fn matches(self, s: SiteType, owner: OwnerType) -> bool {
        self.s_type == s && self.s_owner == owner
    }

    /// An empty, unowned site at `(x, y)`, of radius 0.
    pub fn new(id: i32, x: i32, y: i32) -> (site: CommonSite)
        ensures
            site == (CommonSite {
                site_id: id,
                p: P(x, y),
                radius: 0,
                options: None,
                s_type: SiteType::Empty,
                s_owner: OwnerType::NoOwner,
            }),
    {
        CommonSite {
            site_id: id,
            p: P(x, y),
            radius: 0,
            options: None,
            s_type: SiteType::Empty,
            s_owner: OwnerType::NoOwner,
        }
    }

    /// Takes over what the turn's observation says of the site.
    pub fn update(&mut self, s_type: i32, s_owner: i32, options: SiteOptions)
        ensures
            *final(self) == old(self).observed(s_type as int, s_owner as int, options),
    {
        self.s_owner = OwnerType::from(s_owner);
        self.s_type = SiteType::from(s_type);
        self.options = match self.s_type {
            SiteType::Mine => Some(options),
            _ => None,
        };
    }

    /// Whether a barracks stands on the site.
    pub fn is_barracks(&self) -> (b: bool)
        ensures
            b == (self.s_type == SiteType::Barracks),
    {
        self.s_type == SiteType::Barracks
    }

    /// Whether a tower stands on the site.
    pub fn is_tower(&self) -> (b: bool)
        ensures
            b == (self.s_type == SiteType::Tower),
    {
        self.s_type == SiteType::Tower
    }

    /// Whether a mine stands on the site.
    pub fn is_mine(&self) -> (b: bool)
        ensures
            b == (self.s_type == SiteType::Mine),
    {
        self.s_type == SiteType::Mine
    }

    /// Whether the site is the player's own.
    pub fn is_own(&self) -> (b: bool)
        ensures
            b == (self.s_owner == OwnerType::Friendly),
    {
        self.s_owner == OwnerType::Friendly
    }

    /// Whether the site holds a structure of kind `s` that belongs to `owner`.
    pub fn is(&self, s: SiteType, owner: OwnerType) -> (b: bool)
        ensures
            b == self.matches(s, owner),
    {
        self.s_type == s && self.s_owner == owner
    }
}

impl Place for CommonSite {
    type Query = (SiteType, OwnerType);

    open spec fn place(&self) -> P {
        self.p
    }

    open spec fn ident(&self) -> int {
        self.site_id as int
    }

    open spec fn fits(&self, query: (SiteType, OwnerType)) -> bool {
        self.matches(query.0, query.1)
    }

    fn position(&self) -> (p: P) {
        self.p
    }

    fn is_fit(&self, query: &(SiteType, OwnerType)) -> (b: bool) {
        self.is(query.0, query.1)
    }

    fn ident_below(&self, other: &CommonSite) -> (b: bool) {
        self.site_id < other.site_id
    }
}

} // verus!
