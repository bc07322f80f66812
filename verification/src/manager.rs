//! The plain turn: build on the nearest free site, walk to a tower when no
//! site is free, stand still while the hero is under attack, and train.

use vstd::prelude::*;
use crate::codes::{O_FRIENDLY, O_NO_OWNER, S_BARRACKS, S_EMPTY, S_TOWER, U_KNIGHT};
use crate::command::{
    make_built, make_built_text, move_text, move_to, sizes_as_ints, train_at, train_text, wait,
    wait_text,
};
use crate::geometry::P;
use crate::registry::RegistryError;
use crate::search::{
    distinct, find_pick, is_pick, lemma_pick_exists, lemma_pick_unique, none_fits, pick, Place,
};
use crate::unit::Unit;

verus! {

/// The hero is under attack when its health is below this.
pub const QUEEN_ATTACK_HEALTH: i32 = 70;

/// The gold that training at one barracks costs.
pub const TRAIN_COST: i32 = 80;

/// One site of the map, with the numbers of its structure and of its owner.
#[derive(Clone, Copy, Debug, PartialEq, Eq, Structural)]
pub struct Site {
    pub site_id: usize,
    pub radius: i32,
    pub p: P,
    pub t_site: i32,
    pub owner: i32,
}

impl Site {
    /// Whether the site holds the structure `ttype` and belongs to `owner`.
    pub open spec fn matches(self, ttype: i32, owner: i32) -> bool {
        self.t_site == ttype && self.owner == owner
    }

    /// An empty, unowned site.
    pub fn new(site_id: usize, radius: i32, p: (i32, i32)) -> (site: Site)
        ensures
            site == (Site {
                site_id: site_id,
                radius: radius,
                p: P(p.0, p.1),
                t_site: S_EMPTY,
                owner: O_NO_OWNER,
            }),
    {
        Site { site_id, radius, t_site: S_EMPTY, owner: O_NO_OWNER, p: P(p.0, p.1) }
    }
}

impl Place for Site {
    type Query = (i32, i32);

    open spec fn place(&self) -> P {
        self.p
    }

    open spec fn ident(&self) -> int {
        self.site_id as int
    }

    open spec fn fits(&self, query: (i32, i32)) -> bool {
        self.matches(query.0, query.1)
    }

    fn position(&self) -> (p: P) {
        self.p
    }

    fn is_fit(&self, query: &(i32, i32)) -> (b: bool) {
        self.t_site == query.0 && self.owner == query.1
    }

    fn ident_below(&self, other: &Site) -> (b: bool) {
        self.site_id < other.site_id
    }
}

/// No identifier occurs twice among `sites`.
pub open spec fn distinct_ids(sites: Seq<Site>) -> bool {
    distinct(sites)
}

/// Some site among `sites` carries the identifier `id`.
pub open spec fn knows(sites: Seq<Site>, id: int) -> bool {
    exists|i: int| 0 <= i < sites.len() && (#[trigger] sites[i]).site_id == id
}

/// Where among `sites` the site with identifier `id` stands.
pub open spec fn place_of(sites: Seq<Site>, id: int) -> int {
    choose|i: int| 0 <= i < sites.len() && (#[trigger] sites[i]).site_id == id
}

/// The test that picks the player's sites with the structure `t_type`.
pub open spec fn own_of(t_type: i32) -> spec_fn(Site) -> bool {
    |s: Site| s.matches(t_type, O_FRIENDLY)
}

/// No site among `sites` holds the structure `ttype` and belongs to `owner`.
pub open spec fn none_of(sites: Seq<Site>, ttype: i32, owner: i32) -> bool {
    none_fits(sites, (ttype, owner))
}

/// `s` is the site with structure `ttype` and owner `owner` among `sites`
/// that is closest to `from`; of several at the same distance, the one with
/// the lowest identifier.
pub open spec fn is_closest(sites: Seq<Site>, ttype: i32, owner: i32, from: P, s: Site) -> bool {
    is_pick(sites, (ttype, owner), from, false, s)
}

/// The site that `is_closest` singles out, where some site has that
/// structure and owner.
pub open spec fn closest(sites: Seq<Site>, ttype: i32, owner: i32, from: P) -> Site {
    pick(sites, (ttype, owner), from, false)
}

/// `s` is the site with structure `ttype` and owner `owner` among `sites`
/// that is farthest from `from`; of several at the same distance, the one
/// with the lowest identifier.
pub open spec fn is_remotest(sites: Seq<Site>, ttype: i32, owner: i32, from: P, s: Site) -> bool {
    is_pick(sites, (ttype, owner), from, true, s)
}

/// The site that `is_remotest` singles out, where some site has that
/// structure and owner.
pub open spec fn remotest(sites: Seq<Site>, ttype: i32, owner: i32, from: P) -> Site {
    pick(sites, (ttype, owner), from, true)
}

/// Unit `i` is the player's hero, and no unit before it is.
pub open spec fn is_first_queen(units: Seq<Unit>, i: int) -> bool {
    &&& 0 <= i < units.len()
    &&& units[i].is_own_queen()
    &&& forall|j: int| 0 <= j < i ==> !(#[trigger] units[j]).is_own_queen()
}

/// The player's hero is among `units`.
pub open spec fn shows_queen(units: Seq<Unit>) -> bool {
    exists|i: int| 0 <= i < units.len() && (#[trigger] units[i]).is_own_queen()
}

/// The player's hero: the first unit of `units` that is one.
pub open spec fn queen_of(units: Seq<Unit>) -> Unit {
    units[choose|i: int| is_first_queen(units, i)]
}

/// The sites behind the references `found`.
pub open spec fn sites_of(found: Seq<&Site>) -> Seq<Site> {
    Seq::new(found.len(), |i: int| *found[i])
}

/// How many trainings `gold` pays for.
pub open spec fn trainings(gold: int) -> nat {
    if gold < TRAIN_COST {
        0
    } else {
        (gold / (TRAIN_COST as int)) as nat
    }
}

/// The state of one game: the sites, and what the current turn has shown of
/// the gold and of the units.
pub struct Manager {
    sites: Vec<Site>,
    units: Vec<Unit>,
    gold: i32,
}

impl Manager {
    /// The registered sites, in the order in which they were registered.
    pub closed spec fn sites(&self) -> Seq<Site> {
        self.sites@
    }

    /// The units that the turn has shown, in the order in which it showed
    /// them.
    pub closed spec fn units(&self) -> Seq<Unit> {
        self.units@
    }

    /// The gold at hand this turn.
    pub closed spec fn gold(&self) -> int {
        self.gold as int
    }

    /// The manager's invariant: no site identifier is registered twice.
    pub open spec fn wf(&self) -> bool {
        distinct_ids(self.sites())
    }

    /// The player's barracks, in the order in which their sites were
    /// registered.
    pub open spec fn barracks(&self) -> Seq<Site> {
        self.sites().filter(own_of(S_BARRACKS))
    }

    /// The number of the structure to build next: a tower once the player
    /// has a barracks, a barracks before.
    pub open spec fn build_code(&self) -> int {
        if self.barracks().len() > 0 {
            S_TOWER as int
        } else {
            S_BARRACKS as int
        }
    }

    /// Whether the hero is under attack.
    pub open spec fn under_attack(&self) -> bool {
        queen_of(self.units()).health < QUEEN_ATTACK_HEALTH
    }

    /// The tower to walk to: the friendly tower farthest from the hero.
    pub open spec fn refuge(&self) -> Site {
        remotest(self.sites(), S_TOWER, O_FRIENDLY, queen_of(self.units()).p)
    }

    /// The action line that sends the hero to the farthest friendly tower,
    /// where one stands.
    pub open spec fn tower_line(&self) -> Option<Seq<char>> {
        if none_of(self.sites(), S_TOWER, O_FRIENDLY) {
            None
        } else {
            Some(move_text(self.refuge().p.0 as int, self.refuge().p.1 as int))
        }
    }

    /// Whether the hero retreats: it is under attack and a friendly tower
    /// stands.
    pub open spec fn retreats(&self) -> bool {
        self.under_attack() && !none_of(self.sites(), S_TOWER, O_FRIENDLY)
    }

    /// The action line of a turn without retreat: a knights' barracks or a
    /// tower on the free site nearest to the hero, or wait where no site is
    /// free.
    pub open spec fn build_line(&self) -> Seq<char> {
        if none_of(self.sites(), S_EMPTY, O_NO_OWNER) {
            wait_text()
        } else {
            make_built_text(
                closest(
                    self.sites(),
                    S_EMPTY,
                    O_NO_OWNER,
                    queen_of(self.units()).p,
                ).site_id as int,
                self.build_code(),
                U_KNIGHT as int,
            )
        }
    }

    /// The action line of the turn: the way to the farthest friendly tower
    /// for a hero that retreats, else the line that builds or waits.
    pub open spec fn action_line(&self) -> Seq<char> {
        if self.retreats() {
            move_text(self.refuge().p.0 as int, self.refuge().p.1 as int)
        } else {
            self.build_line()
        }
    }

    /// The sites to train at: the player's first barracks, as many as the
    /// gold pays for.
    pub open spec fn train_ids(&self) -> Seq<int> {
        let barracks = self.barracks();
        let count = if trainings(self.gold()) < barracks.len() {
            trainings(self.gold())
        } else {
            barracks.len()
        };
        Seq::new(count, |i: int| barracks[i].site_id as int)
    }

    /// A manager without sites, units or gold.
    pub fn new() -> (manager: Manager)
        ensures
            manager.wf(),
            manager.sites() == Seq::<Site>::empty(),
            manager.units() == Seq::<Unit>::empty(),
            manager.gold() == 0,
    {
        Manager { sites: Vec::new(), units: Vec::new(), gold: 0 }
    }

    /// The place among the sites of the one with identifier `id`.
    fn find(&self, id: usize) -> (found: Option<usize>)
        ensures
            match found {
                Some(i) => i < self.sites().len() && self.sites()[i as int].site_id == id,
                None => !knows(self.sites(), id as int),
            },
    {
        let mut i: usize = 0;
        while i < self.sites.len()
            invariant
                i <= self.sites.len(),
                forall|j: int| 0 <= j < i ==> (#[trigger] self.sites@[j]).site_id != id,
            decreases self.sites.len() - i,
        {
            if self.sites[i].site_id == id {
                return Some(i);
            }
            i += 1;
        }
        None
    }

    /// Registers `site`. An identifier that is registered already is turned
    /// down, and the sites stay as they were.
    pub fn add_site(&mut self, site: Site) -> (res: Result<(), RegistryError>)
        requires
            old(self).wf(),
        ensures
            final(self).wf(),
            final(self).units() == old(self).units(),
            final(self).gold() == old(self).gold(),
            match res {
                Ok(_) => !knows(old(self).sites(), site.site_id as int) && final(self).sites()
                    == old(self).sites().push(site),
                Err(e) => e == RegistryError::DuplicateSite && knows(
                    old(self).sites(),
                    site.site_id as int,
                ) && final(self).sites() == old(self).sites(),
            },
    {
        match self.find(site.site_id) {
            Some(_) => Err(RegistryError::DuplicateSite),
            None => {
                self.sites.push(site);
                Ok(())
            },
        }
    }

    /// Takes over the structure and the owner that the turn shows on site
    /// `id`. An identifier that is not registered is turned down, and the
    /// sites stay as they were.
    pub fn observe_site(&mut self, id: usize, structure_type: i32, owner: i32) -> (res: Result<
        (),
        RegistryError,
    >)
        requires
            old(self).wf(),
        ensures
            final(self).wf(),
            final(self).units() == old(self).units(),
            final(self).gold() == old(self).gold(),
            match res {
                Ok(_) => knows(old(self).sites(), id as int) && final(self).sites() == old(
                    self,
                ).sites().update(
                    place_of(old(self).sites(), id as int),
                    (Site {
                        t_site: structure_type,
                        owner: owner,
                        ..old(self).sites()[place_of(old(self).sites(), id as int)]
                    }),
                ),
                Err(e) => e == RegistryError::UnknownSite && !knows(old(self).sites(), id as int)
                    && final(self).sites() == old(self).sites(),
            },
    {
        match self.find(id) {
            Some(i) => {
                let mut site = self.sites[i];
                site.t_site = structure_type;
                site.owner = owner;
                self.sites.set(i, site);
                Ok(())
            },
            None => Err(RegistryError::UnknownSite),
        }
    }

    /// Opens a turn with `gold` at hand and no unit shown yet.
    pub fn begin_turn(&mut self, gold: i32)
        ensures
            final(self).sites() == old(self).sites(),
            final(self).units() == Seq::<Unit>::empty(),
            final(self).gold() == gold,
    {
        self.gold = gold;
        self.units = Vec::new();
    }

    /// Takes note of a unit that the turn shows.
    pub fn add_unit(&mut self, unit: Unit)
        ensures
            final(self).sites() == old(self).sites(),
            final(self).units() == old(self).units().push(unit),
            final(self).gold() == old(self).gold(),
    {
        self.units.push(unit);
    }

    /// Whether the turn has shown the player's hero.
    pub fn has_queen(&self) -> (b: bool)
        ensures
            b == shows_queen(self.units()),
    {
        let mut i: usize = 0;
        while i < self.units.len()
            invariant
                i <= self.units.len(),
                forall|j: int| 0 <= j < i ==> !(#[trigger] self.units@[j]).is_own_queen(),
            decreases self.units.len() - i,
        {
            if self.units[i].is_friendly_queen() {
                return true;
            }
            i += 1;
        }
        false
    }

    /// The player's sites with the structure `t_type`, in the order in which
    /// they were registered.
    pub fn t_vec(&self, t_type: i32) -> (found: Vec<&Site>)
        ensures
            sites_of(found@) == self.sites().filter(own_of(t_type)),
    {
        let mut found: Vec<&Site> = Vec::new();
        let mut i: usize = 0;
        proof {
            reveal(Seq::filter);
        }
        while i < self.sites.len()
            invariant
                i <= self.sites.len(),
                sites_of(found@) == self.sites@.take(i as int).filter(own_of(t_type)),
            decreases self.sites.len() - i,
        {
            let site = &self.sites[i];
            if site.owner == O_FRIENDLY && site.t_site == t_type {
                found.push(site);
            }
            proof {
                assert(self.sites@.take(i + 1) =~= self.sites@.take(i as int).push(
                    self.sites@[i as int],
                ));
                self.sites@.take(i as int).lemma_filter_push(
                    self.sites@[i as int],
                    own_of(t_type),
                );
            }
            i += 1;
        }
        assert(self.sites@.take(i as int) == self.sites@);
        found
    }

    /// The player's hero: the first unit shown that is one.
    pub fn queen(&self) -> (queen: &Unit)
        requires
            shows_queen(self.units()),
        ensures
            *queen == queen_of(self.units()),
            queen.is_own_queen(),
            self.units().contains(*queen),
    {
        let ghost shown = choose|k: int|
            0 <= k < self.units@.len() && (#[trigger] self.units@[k]).is_own_queen();
        let count = self.units.len();
        let mut i: usize = 0;
        while !self.units[i].is_friendly_queen()
            invariant
                i <= shown < count == self.units@.len(),
                self.units@[shown].is_own_queen(),
                forall|j: int| 0 <= j < i ==> !(#[trigger] self.units@[j]).is_own_queen(),
            decreases count - i,
        {
            i += 1;
        }
        proof {
            lemma_first_queen(self.units@, i as int);
        }
        &self.units[i]
    }

    /// The site with structure `ttype` and owner `owner` that is nearest to
    /// the hero or, where `far` is set, farthest from it.
    fn chosen(&self, ttype: i32, owner: i32, far: bool) -> (found: Option<&Site>)
        requires
            self.wf(),
            shows_queen(self.units()),
        ensures
            found is None <==> none_of(self.sites(), ttype, owner),
            found matches Some(s) ==> is_pick(
                self.sites(),
                (ttype, owner),
                queen_of(self.units()).p,
                far,
                *s,
            ) && *s == pick(self.sites(), (ttype, owner), queen_of(self.units()).p, far),
    {
        let queen = self.queen();
        match find_pick(&self.sites, &(ttype, owner), &queen.p, far) {
            Some(i) => {
                proof {
                    lemma_pick_unique(
                        self.sites(),
                        (ttype, owner),
                        queen.p,
                        far,
                        self.sites()[i as int],
                        pick(self.sites(), (ttype, owner), queen.p, far),
                    );
                }
                Some(&self.sites[i])
            },
            None => None,
        }
    }

    /// The site with structure `ttype` and owner `owner` that is nearest to
    /// the hero; of several at the same distance, the one with the lowest
    /// identifier. There is none exactly when no site has that structure
    /// and owner.
    pub fn near_option(&self, ttype: i32, owner: i32) -> (found: Option<&Site>)
        requires
            self.wf(),
            shows_queen(self.units()),
        ensures
            found is None <==> none_of(self.sites(), ttype, owner),
            found matches Some(s) ==> s.matches(ttype, owner) && self.sites().contains(*s),
            found matches Some(s) ==> is_closest(
                self.sites(),
                ttype,
                owner,
                queen_of(self.units()).p,
                *s,
            ) && *s == closest(self.sites(), ttype, owner, queen_of(self.units()).p),
    {
        self.chosen(ttype, owner, false)
    }

    /// The action line that sends the hero to the friendly tower farthest
    /// from it; of several at the same distance, to the one with the lowest
    /// identifier. There is none exactly when no friendly tower stands.
    pub fn go_tower(&self) -> (order: Option<String>)
        requires
            self.wf(),
            shows_queen(self.units()),
        ensures
            order is Some <==> !none_of(self.sites(), S_TOWER, O_FRIENDLY),
            match order {
                Some(line) => self.tower_line() == Some(line@),
                None => self.tower_line() is None,
            },
    {
        let far_tower = self.chosen(S_TOWER, O_FRIENDLY, true);
        match far_tower {
            None => None,
            Some(t) => Some(move_to(t.p.0, t.p.1)),
        }
    }

    /// Whether the hero is under attack.
    pub fn queen_in_attack(&self) -> (b: bool)
        requires
            shows_queen(self.units()),
        ensures
            b == self.under_attack(),
    {
        let q = self.queen();
        q.health < QUEEN_ATTACK_HEALTH
    }

    /// The number of the structure to build next.
    pub fn build_predict(&self) -> (code: i32)
        ensures
            code == self.build_code(),
    {
        let sites = self.t_vec(S_BARRACKS);
        if sites.len() > 0 {
            S_TOWER
        } else {
            S_BARRACKS
        }
    }

    /// The action line that builds the next structure on the registered
    /// site `near_id`; a barracks is ordered with knights.
    pub fn process_build(&self, near_id: &usize) -> (line: String)
        requires
            knows(self.sites(), *near_id as int),
        ensures
            line@ == make_built_text(*near_id as int, self.build_code(), U_KNIGHT as int),
    {
        make_built(near_id, self.build_predict(), U_KNIGHT)
    }

    /// The training line of the turn, and the number of the player's
    /// barracks.
    pub fn process_train(&self) -> (res: (String, usize))
        ensures
            res.0@ == train_text(self.train_ids()),
            res.1 == self.barracks().len(),
    {
        let trainable_sites = self.t_vec(S_BARRACKS);
        let mut sites_ids: Vec<usize> = Vec::new();
        if self.gold >= TRAIN_COST {
            let train_summary: usize = (self.gold / TRAIN_COST) as usize;
            let mut i: usize = 0;
            while i < trainable_sites.len() && i < train_summary
                invariant
                    i <= trainable_sites.len(),
                    i <= train_summary,
                    sites_ids@.len() == i,
                    forall|j: int|
                        0 <= j < i ==> sites_ids@[j] == (#[trigger] trainable_sites@[j]).site_id,
                decreases trainable_sites.len() - i,
            {
                sites_ids.push(trainable_sites[i].site_id);
                i += 1;
            }
        }
        assert(sizes_as_ints(sites_ids@) =~= self.train_ids());
        (train_at(&sites_ids), trainable_sites.len())
    }

    /// The two lines of the turn: the action line, then the training line.
    /// A hero under attack walks to the farthest friendly tower, where one
    /// stands; else it builds on the nearest free site, or waits where no
    /// site is free. The argument is the site that the hero touches, -1 for
    /// none; the decision does not depend on it.
    pub fn process(&self, _near_site: i32) -> (lines: (String, String))
        requires
            self.wf(),
            shows_queen(self.units()),
        ensures
            lines.0@ == self.action_line(),
            lines.1@ == train_text(self.train_ids()),
    {
        let retreat = if self.queen_in_attack() {
            self.go_tower()
        } else {
            None
        };
        let action = match retreat {
            Some(line) => line,
            None => {
                let near = self.near_option(S_EMPTY, O_NO_OWNER);
                if let Some(t) = near {
                    let sid = t.site_id;
                    self.process_build(&sid)
                } else {
                    wait()
                }
            },
        };
        (action, self.process_train().0)
    }
}

/// Where the player's hero is among the units, `queen_of` names it: the
/// first unit that is one.
pub proof fn lemma_queen_exists(units: Seq<Unit>)
    requires
        shows_queen(units),
    ensures
        queen_of(units).is_own_queen(),
        units.contains(queen_of(units)),
        exists|i: int| is_first_queen(units, i) && units[i] == queen_of(units),
{
    let some = choose|i: int| 0 <= i < units.len() && (#[trigger] units[i]).is_own_queen();
    lemma_first_queen_before(units, some);
}

/// Before a hero among the units, or at its place, stands the first one.
proof fn lemma_first_queen_before(units: Seq<Unit>, i: int)
    requires
        0 <= i < units.len(),
        units[i].is_own_queen(),
    ensures
        exists|k: int| is_first_queen(units, k),
    decreases i,
{
    if exists|j: int| 0 <= j < i && (#[trigger] units[j]).is_own_queen() {
        let j = choose|j: int| 0 <= j < i && (#[trigger] units[j]).is_own_queen();
        lemma_first_queen_before(units, j);
    } else {
        assert(is_first_queen(units, i));
    }
}

/// The first hero among the units is the one that `queen_of` names.
proof fn lemma_first_queen(units: Seq<Unit>, i: int)
    requires
        is_first_queen(units, i),
    ensures
        queen_of(units) == units[i],
{
}

/// A hero under attack walks to a friendly tower, where one stands: to the
/// one farthest from it.
pub proof fn lemma_attacked_hero_walks_to_farthest_tower(m: Manager)
    requires
        m.under_attack(),
        !none_of(m.sites(), S_TOWER, O_FRIENDLY),
    ensures
        is_remotest(m.sites(), S_TOWER, O_FRIENDLY, queen_of(m.units()).p, m.refuge()),
        m.action_line() == move_text(m.refuge().p.0 as int, m.refuge().p.1 as int),
{
    lemma_pick_exists(m.sites(), (S_TOWER, O_FRIENDLY), queen_of(m.units()).p, true);
}

/// A hero that is not under attack, or has no friendly tower to walk to,
/// builds or waits.
pub proof fn lemma_hero_stays(m: Manager)
    requires
        !m.under_attack() || none_of(m.sites(), S_TOWER, O_FRIENDLY),
    ensures
        m.action_line() == m.build_line(),
{
}

/// With no free site, the hero waits; with one, it builds on the free site
/// nearest to it.
pub proof fn lemma_build_or_wait(m: Manager)
    ensures
        none_of(m.sites(), S_EMPTY, O_NO_OWNER) ==> m.build_line() == wait_text(),
        !none_of(m.sites(), S_EMPTY, O_NO_OWNER) ==> is_closest(
            m.sites(),
            S_EMPTY,
            O_NO_OWNER,
            queen_of(m.units()).p,
            closest(m.sites(), S_EMPTY, O_NO_OWNER, queen_of(m.units()).p),
        ) && m.build_line() == make_built_text(
            closest(m.sites(), S_EMPTY, O_NO_OWNER, queen_of(m.units()).p).site_id as int,
            m.build_code(),
            U_KNIGHT as int,
        ),
{
    if !none_of(m.sites(), S_EMPTY, O_NO_OWNER) {
        lemma_pick_exists(m.sites(), (S_EMPTY, O_NO_OWNER), queen_of(m.units()).p, false);
    }
}

} // verus!
