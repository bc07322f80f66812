//! The turn's decisions: retreat to a tower, build on the nearest free site,
//! and train at as many barracks as the gold pays for.

use vstd::prelude::*;
use crate::command::{
    as_ints, build_text, built, move_text, move_to, train, train_text, wait, wait_text,
};
use crate::geometry::P;
use crate::registry::{
    farthest_site, has_id, is_farthest, is_nearest, nearest_site, none_matches, position_of,
    same_map, selector, unique_ids, RegistryError, SiteRegistry,
};
use crate::search::{lemma_pick_exists, lemma_pick_unique};
use crate::site::{CommonSite, OwnerType, SiteOptions, SiteType};
use crate::unit::Unit;

verus! {

/// The hero retreats when its health is below this.
pub const QUEEN_GUARD_HEALTH: i32 = 24;

/// With more friendly barracks than this, the next structure is a tower.
pub const COUNT_BARRACKS: usize = 0;

/// With fewer friendly mines than this, the next structure is a mine.
pub const GOLD_INC: usize = 2;

/// The gold that training at one barracks costs.
pub const UNIT_COST: i32 = 80;

/// How many trainings `gold` pays for.
pub open spec fn affordable(gold: int) -> nat {
    if gold < UNIT_COST {
        0
    } else {
        (gold / (UNIT_COST as int)) as nat
    }
}

/// The state of one game: the registry of sites, and what the current turn
/// has shown of the gold and of the player's hero.
#[derive(Debug)]
pub struct ResourceManager {
    sites: SiteRegistry,
    queen: Option<Unit>,
    gold: i32,
}

impl ResourceManager {
    /// The registered sites, in the order in which they were registered.
    pub closed spec fn sites(&self) -> Seq<CommonSite> {
        self.sites@
    }

    /// The player's hero, once the turn has shown it.
    pub closed spec fn queen(&self) -> Option<Unit> {
        self.queen
    }

    /// The gold at hand this turn.
    pub closed spec fn gold(&self) -> int {
        self.gold as int
    }

    /// The manager's invariant: no site identifier is registered twice.
    pub open spec fn wf(&self) -> bool {
        unique_ids(self.sites())
    }

    /// The number of friendly mines, which stands for the income.
    pub open spec fn income(&self) -> nat {
        self.sites().filter(selector(SiteType::Mine, OwnerType::Friendly)).len()
    }

    /// The friendly barracks, in the order in which their sites were
    /// registered.
    pub open spec fn barracks(&self) -> Seq<CommonSite> {
        self.sites().filter(selector(SiteType::Barracks, OwnerType::Friendly))
    }

    /// The structure to build next: a mine while the income is low, then one
    /// barracks, then towers.
    pub open spec fn build_kind(&self) -> SiteType {
        if self.income() < GOLD_INC {
            SiteType::Mine
        } else if self.barracks().len() > COUNT_BARRACKS {
            SiteType::Tower
        } else {
            SiteType::Barracks
        }
    }

    /// Whether the hero retreats: its health is low and a friendly tower
    /// stands.
    pub open spec fn retreats(&self) -> bool {
        &&& self.queen() is Some
        &&& self.queen()->0.health < QUEEN_GUARD_HEALTH
        &&& !none_matches(self.sites(), SiteType::Tower, OwnerType::Friendly)
    }

    /// The tower to retreat to: the friendly tower farthest from the hero.
    pub open spec fn refuge(&self) -> CommonSite {
        farthest_site(self.sites(), SiteType::Tower, OwnerType::Friendly, self.queen()->0.p)
    }

    /// The action line of a turn without retreat: build on the free site
    /// nearest to the hero, or wait where no site is free.
    pub open spec fn build_line(&self) -> Seq<char> {
        if none_matches(self.sites(), SiteType::Empty, OwnerType::NoOwner) {
            wait_text()
        } else {
            build_text(
                nearest_site(
                    self.sites(),
                    SiteType::Empty,
                    OwnerType::NoOwner,
                    self.queen()->0.p,
                ).site_id as int,
                self.build_kind(),
            )
        }
    }

    /// The action line of the turn.
    pub open spec fn action_line(&self) -> Seq<char> {
        if self.retreats() {
            move_text(self.refuge().p.0 as int, self.refuge().p.1 as int)
        } else {
            self.build_line()
        }
    }

    /// The sites to train at: the first friendly barracks, as many as the
    /// gold pays for.
    pub open spec fn train_ids(&self) -> Seq<int> {
        let barracks = self.barracks();
        let count = if affordable(self.gold()) < barracks.len() {
            affordable(self.gold())
        } else {
            barracks.len()
        };
        Seq::new(count, |i: int| barracks[i].site_id as int)
    }

    /// A manager without sites, gold or hero.
    pub fn new() -> (manager: ResourceManager)
        ensures
            manager.wf(),
            manager.sites() == Seq::<CommonSite>::empty(),
            manager.queen() is None,
            manager.gold() == 0,
    {
        ResourceManager { sites: SiteRegistry::new(), queen: None, gold: 0 }
    }

    /// The registry of sites.
    pub fn registry(&self) -> (registry: &SiteRegistry)
        ensures
            registry@ == self.sites(),
    {
        &self.sites
    }

    /// Registers the site `id` at `position`, empty and unowned. An
    /// identifier that is registered already is turned down.
    pub fn upsert_initial(&mut self, id: i32, position: P, radius: i32) -> (res: Result<
        (),
        RegistryError,
    >)
        requires
            old(self).wf(),
        ensures
            final(self).wf(),
            final(self).queen() == old(self).queen(),
            final(self).gold() == old(self).gold(),
            match res {
                Ok(_) => !has_id(old(self).sites(), id as int) && final(self).sites() == old(
                    self,
                ).sites().push(
                    CommonSite {
                        site_id: id,
                        p: position,
                        radius: radius,
                        options: None,
                        s_type: SiteType::Empty,
                        s_owner: OwnerType::NoOwner,
                    },
                ),
                Err(e) => e == RegistryError::DuplicateSite && has_id(old(self).sites(), id as int)
                    && final(self).sites() == old(self).sites(),
            },
    {
        self.sites.upsert_initial(id, position, radius)
    }

    /// Opens a turn with `gold` at hand. The hero is not known until
    /// the turn's units have been shown.
    pub fn begin_turn(&mut self, gold: i32)
        ensures
            final(self).sites() == old(self).sites(),
            final(self).queen() is None,
            final(self).gold() == gold,
    {
        self.gold = gold;
        self.queen = None;
    }

    /// Takes over what the turn says of site `id`. An identifier that is not
    /// registered is turned down.
    pub fn apply_observation(
        &mut self,
        id: i32,
        kind: i32,
        owner: i32,
        attributes: SiteOptions,
    ) -> (res: Result<(), RegistryError>)
        requires
            old(self).wf(),
        ensures
            final(self).wf(),
            final(self).queen() == old(self).queen(),
            final(self).gold() == old(self).gold(),
            same_map(old(self).sites(), final(self).sites()),
            match res {
                Ok(_) => has_id(old(self).sites(), id as int) && final(self).sites() == old(
                    self,
                ).sites().update(
                    position_of(old(self).sites(), id as int),
                    old(self).sites()[position_of(old(self).sites(), id as int)].observed(
                        kind as int,
                        owner as int,
                        attributes,
                    ),
                ),
                Err(e) => e == RegistryError::UnknownSite && !has_id(old(self).sites(), id as int)
                    && final(self).sites() == old(self).sites(),
            },
    {
        self.sites.apply_observation(id, kind, owner, attributes)
    }

    /// Takes note of a unit that the turn shows. Only the player's hero is
    /// kept.
    pub fn observe_unit(&mut self, unit: Unit)
        ensures
            final(self).sites() == old(self).sites(),
            final(self).gold() == old(self).gold(),
            final(self).queen() == if unit.is_own_queen() {
                Some(unit)
            } else {
                old(self).queen()
            },
    {
        if unit.is_friendly_queen() {
            self.queen = Some(unit);
        }
    }

    /// Whether the turn has shown the player's hero.
    pub fn has_queen(&self) -> (b: bool)
        ensures
            b == (self.queen() is Some),
    {
        self.queen.is_some()
    }

    /// The number of friendly mines.
    pub fn gold_inc(&self) -> (n: usize)
        ensures
            n == self.income(),
    {
        self.sites.count_matching(SiteType::Mine, OwnerType::Friendly)
    }

    /// The free site nearest to the hero.
    pub fn near_site(&self) -> (found: Option<&CommonSite>)
        requires
            self.wf(),
            self.queen() is Some,
        ensures
            found is None <==> none_matches(self.sites(), SiteType::Empty, OwnerType::NoOwner),
            found matches Some(s) ==> s.matches(SiteType::Empty, OwnerType::NoOwner)
                && self.sites().contains(*s),
            found matches Some(s) ==> is_nearest(
                self.sites(),
                SiteType::Empty,
                OwnerType::NoOwner,
                self.queen()->0.p,
                *s,
            ) && *s == nearest_site(
                self.sites(),
                SiteType::Empty,
                OwnerType::NoOwner,
                self.queen()->0.p,
            ),
    {
        match &self.queen {
            Some(queen) => self.sites.nearest(SiteType::Empty, OwnerType::NoOwner, &queen.p),
            None => None,
        }
    }

    /// The structure to build next.
    pub fn site_predict(&self) -> (kind: SiteType)
        ensures
            kind == self.build_kind(),
    {
        let barracks = self.sites.count_matching(SiteType::Barracks, OwnerType::Friendly);
        let gold_inc = self.gold_inc();
        if gold_inc < GOLD_INC {
            return SiteType::Mine;
        }
        if barracks > COUNT_BARRACKS {
            return SiteType::Tower;
        }
        SiteType::Barracks
    }

    /// The action line of a turn without retreat.
    pub fn process_build(&self) -> (line: String)
        requires
            self.wf(),
            self.queen() is Some,
        ensures
            line@ == self.build_line(),
    {
        let st = self.site_predict();
        let near = self.near_site();
        match near {
            Some(t) => built(t.site_id, st),
            None => wait(),
        }
    }

    /// The retreat, where the hero retreats: the action line that sends it
    /// to the friendly tower farthest away.
    pub fn queen_guard(&self) -> (order: Option<String>)
        requires
            self.wf(),
            self.queen() is Some,
        ensures
            order is Some <==> self.retreats(),
            order matches Some(line) ==> line@ == move_text(
                self.refuge().p.0 as int,
                self.refuge().p.1 as int,
            ),
    {
        match &self.queen {
            Some(t) => {
                if t.health < QUEEN_GUARD_HEALTH {
                    let tower = self.sites.farthest(SiteType::Tower, OwnerType::Friendly, &t.p);
                    match tower {
                        Some(s) => Some(move_to(s.p.x(), s.p.y())),
                        None => None,
                    }
                } else {
                    None
                }
            },
            None => None,
        }
    }

    /// The training line of the turn.
    pub fn process_train(&self) -> (line: String)
        ensures
            line@ == train_text(self.train_ids()),
    {
        let mut ids: Vec<i32> = Vec::new();
        if self.gold >= UNIT_COST {
            let count: usize = (self.gold / UNIT_COST) as usize;
            let barracks = self.sites.sites_matching(SiteType::Barracks, OwnerType::Friendly);
            let mut i: usize = 0;
            while i < barracks.len() && i < count
                invariant
                    i <= barracks.len(),
                    i <= count,
                    ids@.len() == i,
                    forall|j: int| 0 <= j < i ==> ids@[j] == (#[trigger] barracks@[j]).site_id,
                decreases barracks.len() - i,
            {
                ids.push(barracks[i].site_id);
                i += 1;
            }
        }
        assert(as_ints(ids@) =~= self.train_ids());
        train(&ids)
    }

    /// The action line of a turn without retreat.
    pub fn process_predict(&self) -> (line: String)
        requires
            self.wf(),
            self.queen() is Some,
        ensures
            line@ == self.build_line(),
    {
        self.process_build()
    }

    /// The two lines of the turn: the action line, then the training line.
    /// The hero retreats if it must and builds if it need not, whether
    /// or not it touches a site; `tc` is the site it touches, -1 for none.
    pub fn process(&self, tc: i32) -> (lines: (String, String))
        requires
            self.wf(),
            self.queen() is Some,
        ensures
            lines.0@ == self.action_line(),
            lines.1@ == train_text(self.train_ids()),
    {
        let action = match self.queen_guard() {
            Some(line) => line,
            None => match tc {
                -1 => self.process_predict(),
                _ => self.process_build(),
            },
        };
        (action, self.process_train())
    }
}

/// Site `id` is a friendly barracks among `sites`.
pub open spec fn is_own_barracks(sites: Seq<CommonSite>, id: int) -> bool {
    exists|j: int|
        0 <= j < sites.len() && (#[trigger] sites[j]).site_id == id && sites[j].matches(
            SiteType::Barracks,
            OwnerType::Friendly,
        )
}

/// A hero in low health walks to a friendly tower, where one stands: to
/// the one farthest from it.
pub proof fn lemma_retreat_to_farthest_tower(m: ResourceManager)
    requires
        m.queen() is Some,
        m.queen()->0.health < QUEEN_GUARD_HEALTH,
        !none_matches(m.sites(), SiteType::Tower, OwnerType::Friendly),
    ensures
        is_farthest(
            m.sites(),
            SiteType::Tower,
            OwnerType::Friendly,
            m.queen()->0.p,
            m.refuge(),
        ),
        m.action_line() == move_text(m.refuge().p.0 as int, m.refuge().p.1 as int),
{
    lemma_pick_exists(m.sites(), (SiteType::Tower, OwnerType::Friendly), m.queen()->0.p, true);
}

/// A hero with no friendly tower to walk to does not retreat, whatever
/// its health: the turn's action is to build or to wait. So it is for a
/// hero whose health is not low.
pub proof fn lemma_no_retreat(m: ResourceManager)
    requires
        m.queen() is Some,
        none_matches(m.sites(), SiteType::Tower, OwnerType::Friendly) || m.queen()->0.health
            >= QUEEN_GUARD_HEALTH,
    ensures
        m.action_line() == m.build_line(),
{
}

/// With no free site, the hero waits.
pub proof fn lemma_wait_without_free_site(m: ResourceManager)
    requires
        none_matches(m.sites(), SiteType::Empty, OwnerType::NoOwner),
    ensures
        m.build_line() == wait_text(),
{
}

/// With a free site, the hero builds on the free site nearest to it.
pub proof fn lemma_build_on_nearest_free_site(m: ResourceManager)
    requires
        !none_matches(m.sites(), SiteType::Empty, OwnerType::NoOwner),
    ensures
        is_nearest(
            m.sites(),
            SiteType::Empty,
            OwnerType::NoOwner,
            m.queen()->0.p,
            nearest_site(m.sites(), SiteType::Empty, OwnerType::NoOwner, m.queen()->0.p),
        ),
        m.build_line() == build_text(
            nearest_site(
                m.sites(),
                SiteType::Empty,
                OwnerType::NoOwner,
                m.queen()->0.p,
            ).site_id as int,
            m.build_kind(),
        ),
{
    lemma_pick_exists(m.sites(), (SiteType::Empty, OwnerType::NoOwner), m.queen()->0.p, false);
}

/// With one free site and no more, the hero builds on that one.
pub proof fn lemma_build_on_only_free_site(m: ResourceManager, i: int)
    requires
        m.wf(),
        0 <= i < m.sites().len(),
        m.sites()[i].matches(SiteType::Empty, OwnerType::NoOwner),
        forall|j: int|
            0 <= j < m.sites().len() && j != i ==> !(#[trigger] m.sites()[j]).matches(
                SiteType::Empty,
                OwnerType::NoOwner,
            ),
    ensures
        m.build_line() == build_text(m.sites()[i].site_id as int, m.build_kind()),
{
    let from = m.queen()->0.p;
    let only = m.sites()[i];
    lemma_pick_exists(m.sites(), (SiteType::Empty, OwnerType::NoOwner), from, false);
    lemma_pick_unique(
        m.sites(),
        (SiteType::Empty, OwnerType::NoOwner),
        from,
        false,
        only,
        nearest_site(m.sites(), SiteType::Empty, OwnerType::NoOwner, from),
    );
}

/// Training starts at as many sites as the gold pays for, or at all
/// friendly barracks where there are fewer; and each of these sites is a
/// friendly barracks.
pub proof fn lemma_train_at_own_barracks(m: ResourceManager)
    ensures
        m.train_ids().len() == if affordable(m.gold()) < m.barracks().len() {
            affordable(m.gold())
        } else {
            m.barracks().len()
        },
        forall|i: int|
            0 <= i < m.train_ids().len() ==> is_own_barracks(
                m.sites(),
                #[trigger] m.train_ids()[i],
            ),
{
    let pick = selector(SiteType::Barracks, OwnerType::Friendly);
    assert forall|i: int| 0 <= i < m.train_ids().len() implies is_own_barracks(
        m.sites(),
        #[trigger] m.train_ids()[i],
    ) by {
        let site = m.barracks()[i];
        m.sites().lemma_filter_pred(pick, i);
        m.sites().lemma_filter_contains_rev(pick, site);
    }
}

/// With gold for less than one training, or without a friendly
/// barracks, the training line is the bare word.
pub proof fn lemma_train_nowhere(m: ResourceManager)
    requires
        m.gold() < UNIT_COST || m.barracks().len() == 0,
    ensures
        train_text(m.train_ids()) == "TRAIN"@,
{
}

} // verus!
