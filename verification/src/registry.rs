//! The registry of the map's sites, in the order in which they were
//! announced, and the searches that the turn's decisions rest on.

use vstd::prelude::*;
use crate::geometry::P;
use crate::search::{distinct, find_pick, is_pick, lemma_pick_unique, none_fits, pick};
use crate::site::{CommonSite, OwnerType, SiteOptions, SiteType};

verus! {

/// Why the registry turned a request down.
#[derive(Clone, Copy, Debug, PartialEq, Eq, Structural)]
pub enum RegistryError {
    /// A site with this identifier is registered already.
    DuplicateSite,
    /// No site with this identifier is registered.
    UnknownSite,
}

/// No identifier occurs twice among `sites`.
pub open spec fn unique_ids(sites: Seq<CommonSite>) -> bool {
    distinct(sites)
}

/// Some site among `sites` carries the identifier `id`.
pub open spec fn has_id(sites: Seq<CommonSite>, id: int) -> bool {
    exists|i: int| 0 <= i < sites.len() && (#[trigger] sites[i]).site_id == id
}

/// Where among `sites` the site with identifier `id` stands.
pub open spec fn position_of(sites: Seq<CommonSite>, id: int) -> int {
    choose|i: int| 0 <= i < sites.len() && (#[trigger] sites[i]).site_id == id
}

/// The test that picks the sites of kind `kind` that belong to `owner`.
pub open spec fn selector(kind: SiteType, owner: OwnerType) -> spec_fn(CommonSite) -> bool {
    |s: CommonSite| s.matches(kind, owner)
}

/// No site among `sites` is of kind `kind` and belongs to `owner`.
pub open spec fn none_matches(sites: Seq<CommonSite>, kind: SiteType, owner: OwnerType) -> bool {
    none_fits(sites, (kind, owner))
}

/// `s` is the site of kind `kind` and owner `owner` among `sites` that is
/// closest to `from`; of several at the same distance, the one with the
/// lowest identifier.
pub open spec fn is_nearest(
    sites: Seq<CommonSite>,
    kind: SiteType,
    owner: OwnerType,
    from: P,
    s: CommonSite,
) -> bool {
    is_pick(sites, (kind, owner), from, false, s)
}

/// `s` is the site of kind `kind` and owner `owner` among `sites` that is
/// farthest from `from`; of several at the same distance, the one with the
/// lowest identifier.
pub open spec fn is_farthest(
    sites: Seq<CommonSite>,
    kind: SiteType,
    owner: OwnerType,
    from: P,
    s: CommonSite,
) -> bool {
    is_pick(sites, (kind, owner), from, true, s)
}

/// The site that `is_nearest` singles out, where some site is of that kind
/// and owner.
pub open spec fn nearest_site(
    sites: Seq<CommonSite>,
    kind: SiteType,
    owner: OwnerType,
    from: P,
) -> CommonSite {
    pick(sites, (kind, owner), from, false)
}

/// The site that `is_farthest` singles out, where some site is of that kind
/// and owner.
pub open spec fn farthest_site(
    sites: Seq<CommonSite>,
    kind: SiteType,
    owner: OwnerType,
    from: P,
) -> CommonSite {
    pick(sites, (kind, owner), from, true)
}

/// Each site of `after` has the identifier, place and radius of the site
/// that stands at the same place in `before`.
pub open spec fn same_map(before: Seq<CommonSite>, after: Seq<CommonSite>) -> bool {
    &&& after.len() == before.len()
    &&& forall|i: int|
        0 <= i < before.len() ==> {
            &&& (#[trigger] after[i]).site_id == before[i].site_id
            &&& after[i].p == before[i].p
            &&& after[i].radius == before[i].radius
        }
}

/// The sites of the map. Each identifier is registered once; a site keeps
/// its identifier, place and radius for good.
#[derive(Debug)]
pub struct SiteRegistry {
    sites: Vec<CommonSite>,
}

impl View for SiteRegistry {
    type V = Seq<CommonSite>;

    /// The sites, in the order in which they were registered.
    closed spec fn view(&self) -> Seq<CommonSite> {
        self.sites@
    }
}

impl SiteRegistry {
    /// The registry's invariant: no identifier is registered twice.
    pub open spec fn wf(&self) -> bool {
        unique_ids(self@)
    }

    /// A registry without sites.
    pub fn new() -> (registry: SiteRegistry)
        ensures
            registry@ == Seq::<CommonSite>::empty(),
            registry.wf(),
    {
        SiteRegistry { sites: Vec::new() }
    }

    /// The number of registered sites.
    pub fn len(&self) -> (n: usize)
        ensures
            n == self@.len(),
    {
        self.sites.len()
    }

    /// The place among the sites of the one with identifier `id`.
    fn find(&self, id: i32) -> (found: Option<usize>)
        ensures
            match found {
                Some(i) => i < self@.len() && self@[i as int].site_id == id,
                None => !has_id(self@, id as int),
            },
    {
        let mut i: usize = 0;
        while i < self.sites.len()
            invariant
                i <= self.sites.len(),
                forall|j: int| 0 <= j < i ==> (#[trigger] self.sites@[j]).site_id != id,
            decreases self.sites.len() - i,
        {
            if self.sites[i].site_id == id {
                return Some(i);
            }
            i += 1;
        }
        None
    }

    /// The site with identifier `id`, if it is registered.
    pub fn get(&self, id: i32) -> (found: Option<&CommonSite>)
        requires
            self.wf(),
        ensures
            match found {
                Some(s) => has_id(self@, id as int) && *s == self@[position_of(self@, id as int)],
                None => !has_id(self@, id as int),
            },
    {
        match self.find(id) {
            Some(i) => Some(&self.sites[i]),
            None => None,
        }
    }

    /// Registers the site `id` at `position`, empty and unowned. An
    /// identifier that is registered already is turned down, and the
    /// registry stays as it was.
    pub fn upsert_initial(&mut self, id: i32, position: P, radius: i32) -> (res: Result<
        (),
        RegistryError,
    >)
        requires
            old(self).wf(),
        ensures
            final(self).wf(),
            match res {
                Ok(_) => !has_id(old(self)@, id as int) && final(self)@ == old(self)@.push(
                    CommonSite {
                        site_id: id,
                        p: position,
                        radius: radius,
                        options: None,
                        s_type: SiteType::Empty,
                        s_owner: OwnerType::NoOwner,
                    },
                ),
                Err(e) => e == RegistryError::DuplicateSite && has_id(old(self)@, id as int)
                    && final(self)@ == old(self)@,
            },
    {
        match self.find(id) {
            Some(_) => Err(RegistryError::DuplicateSite),
            None => {
                let mut site = CommonSite::new(id, position.0, position.1);
                site.radius = radius;
                self.sites.push(site);
                Ok(())
            },
        }
    }

    /// Takes over what the turn's observation says of site `id`: the kind of
    /// structure and the owner, each by its number, and a mine's attributes.
    /// An identifier that is not registered is turned down, and the registry
    /// stays as it was.
    pub fn apply_observation(
        &mut self,
        id: i32,
        kind: i32,
        owner: i32,
        attributes: SiteOptions,
    ) -> (res: Result<(), RegistryError>)
        requires
            old(self).wf(),
        ensures
            final(self).wf(),
            same_map(old(self)@, final(self)@),
            match res {
                Ok(_) => has_id(old(self)@, id as int) && final(self)@ == old(self)@.update(
                    position_of(old(self)@, id as int),
                    old(self)@[position_of(old(self)@, id as int)].observed(
                        kind as int,
                        owner as int,
                        attributes,
                    ),
                ),
                Err(e) => e == RegistryError::UnknownSite && !has_id(old(self)@, id as int)
                    && final(self)@ == old(self)@,
            },
    {
        match self.find(id) {
            Some(i) => {
                let mut site = self.sites[i];
                site.update(kind, owner, attributes);
                self.sites.set(i, site);
                Ok(())
            },
            None => Err(RegistryError::UnknownSite),
        }
    }

    /// The sites of kind `kind` that belong to `owner`, in the order in
    /// which they were registered.
    pub fn sites_matching(&self, kind: SiteType, owner: OwnerType) -> (found: Vec<CommonSite>)
        ensures
            found@ == self@.filter(selector(kind, owner)),
    {
        let mut found: Vec<CommonSite> = Vec::new();
        let mut i: usize = 0;
        proof {
            lemma_filter_nothing(selector(kind, owner));
        }
        while i < self.sites.len()
            invariant
                i <= self.sites.len(),
                found@ == self.sites@.take(i as int).filter(selector(kind, owner)),
            decreases self.sites.len() - i,
        {
            proof {
                lemma_filter_step(self.sites@, i as int, selector(kind, owner));
            }
            if self.sites[i].is(kind, owner) {
                found.push(self.sites[i]);
            }
            i += 1;
        }
        assert(self.sites@.take(i as int) == self.sites@);
        found
    }

    /// How many sites are of kind `kind` and belong to `owner`.
    pub fn count_matching(&self, kind: SiteType, owner: OwnerType) -> (n: usize)
        ensures
            n == self@.filter(selector(kind, owner)).len(),
    {
        let mut n: usize = 0;
        let mut i: usize = 0;
        proof {
            lemma_filter_nothing(selector(kind, owner));
        }
        while i < self.sites.len()
            invariant
                i <= self.sites.len(),
                n <= i,
                n == self.sites@.take(i as int).filter(selector(kind, owner)).len(),
            decreases self.sites.len() - i,
        {
            proof {
                lemma_filter_step(self.sites@, i as int, selector(kind, owner));
            }
            if self.sites[i].is(kind, owner) {
                n += 1;
            }
            i += 1;
        }
        assert(self.sites@.take(i as int) == self.sites@);
        n
    }

    /// The site of kind `kind` and owner `owner` that is closest to `from`
    /// or, where `far` is set, farthest from it.
    fn chosen(&self, kind: SiteType, owner: OwnerType, from: &P, far: bool) -> (found: Option<
        &CommonSite,
    >)
        requires
            self.wf(),
        ensures
            found is None <==> none_fits(self@, (kind, owner)),
            found matches Some(s) ==> is_pick(self@, (kind, owner), *from, far, *s) && *s == pick(
                self@,
                (kind, owner),
                *from,
                far,
            ),
    {
        match find_pick(&self.sites, &(kind, owner), from, far) {
            Some(i) => {
                proof {
                    lemma_pick_unique(
                        self@,
                        (kind, owner),
                        *from,
                        far,
                        self@[i as int],
                        pick(self@, (kind, owner), *from, far),
                    );
                }
                Some(&self.sites[i])
            },
            None => None,
        }
    }

    /// The site of kind `kind` and owner `owner` that is closest to `from`;
    /// of several at the same distance, the one with the lowest identifier.
    /// There is none exactly when no site is of that kind and owner.
    pub fn nearest(&self, kind: SiteType, owner: OwnerType, from: &P) -> (found: Option<
        &CommonSite,
    >)
        requires
            self.wf(),
        ensures
            found is None <==> none_matches(self@, kind, owner),
            found matches Some(s) ==> s.matches(kind, owner) && self@.contains(*s),
            found matches Some(s) ==> is_nearest(self@, kind, owner, *from, *s) && *s
                == nearest_site(self@, kind, owner, *from),
    {
        self.chosen(kind, owner, from, false)
    }

    /// The site of kind `kind` and owner `owner` that is farthest from
    /// `from`; of several at the same distance, the one with the lowest
    /// identifier. There is none exactly when no site is of that kind and
    /// owner.
    pub fn farthest(&self, kind: SiteType, owner: OwnerType, from: &P) -> (found: Option<
        &CommonSite,
    >)
        requires
            self.wf(),
        ensures
            found is None <==> none_matches(self@, kind, owner),
            found matches Some(s) ==> s.matches(kind, owner) && self@.contains(*s),
            found matches Some(s) ==> is_farthest(self@, kind, owner, *from, *s) && *s
                == farthest_site(self@, kind, owner, *from),
    {
        self.chosen(kind, owner, from, true)
    }
}

/// Nothing is picked from no sites.
proof fn lemma_filter_nothing(pick: spec_fn(CommonSite) -> bool)
    ensures
        Seq::<CommonSite>::empty().filter(pick) == Seq::<CommonSite>::empty(),
        forall|sites: Seq<CommonSite>| (#[trigger] sites.take(0)).filter(pick) == Seq::<
            CommonSite,
        >::empty(),
{
    reveal(Seq::filter);
}

/// What is picked from the first `i + 1` sites is what is picked from the
/// first `i`, and then site `i` if the test picks it.
proof fn lemma_filter_step(sites: Seq<CommonSite>, i: int, pick: spec_fn(CommonSite) -> bool)
    requires
        0 <= i < sites.len(),
    ensures
        sites.take(i + 1).filter(pick) == if pick(sites[i]) {
            sites.take(i).filter(pick).push(sites[i])
        } else {
            sites.take(i).filter(pick)
        },
{
    assert(sites.take(i + 1) =~= sites.take(i).push(sites[i]));
    sites.take(i).lemma_filter_push(sites[i], pick);
}

} // verus!
