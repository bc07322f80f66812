//! The search among places for the one nearest to a point, or farthest from
//! it, that fits a query.

use vstd::prelude::*;
use crate::geometry::{distance, P};

verus! {

/// Something that lies at a point of the map, carries an identifier, and
/// fits a query or does not.
pub trait Place: Sized {
    /// What a search asks of a place.
    type Query;

    /// Where the place lies.
    spec fn place(&self) -> P;

    /// The identifier of the place.
    spec fn ident(&self) -> int;

    /// Whether the place fits `query`.
    spec fn fits(&self, query: Self::Query) -> bool;

    /// Where the place lies.
    fn position(&self) -> (p: P)
        ensures
            p == self.place(),
    ;

    /// Whether the place fits `query`.
    fn is_fit(&self, query: &Self::Query) -> (b: bool)
        ensures
            b == self.fits(*query),
    ;

    /// Whether the identifier of the place is lower than that of `other`.
    fn ident_below(&self, other: &Self) -> (b: bool)
        ensures
            b == (self.ident() < other.ident()),
    ;
}

/// No identifier occurs twice among `places`.
pub open spec fn distinct<S: Place>(places: Seq<S>) -> bool {
    forall|i: int, j: int|
        0 <= i < j < places.len() ==> (#[trigger] places[i]).ident() != (
        #[trigger] places[j]).ident()
}

/// None of `places` fits `query`.
pub open spec fn none_fits<S: Place>(places: Seq<S>, query: S::Query) -> bool {
    forall|i: int| 0 <= i < places.len() ==> !(#[trigger] places[i]).fits(query)
}

/// Seen from `from`, place `a` comes before place `b`: it is closer (or,
/// where `far` is set, farther away), or at the same distance and of no
/// greater identifier.
pub open spec fn ahead<S: Place>(a: S, b: S, from: P, far: bool) -> bool {
    let reach = distance(a.place(), from);
    let other = distance(b.place(), from);
    (if far {
        reach > other
    } else {
        reach < other
    }) || (reach == other && a.ident() <= b.ident())
}

/// Among the `places` that fit `query`, `s` is the one closest to `from`
/// (or, where `far` is set, the one farthest from it); of several at the
/// same distance, the one with the lowest identifier.
pub open spec fn is_pick<S: Place>(
    places: Seq<S>,
    query: S::Query,
    from: P,
    far: bool,
    s: S,
) -> bool {
    &&& places.contains(s)
    &&& s.fits(query)
    &&& forall|i: int|
        0 <= i < places.len() && (#[trigger] places[i]).fits(query) ==> ahead(
            s,
            places[i],
            from,
            far,
        )
}

/// The place that `is_pick` singles out, where some place fits the query.
pub open spec fn pick<S: Place>(places: Seq<S>, query: S::Query, from: P, far: bool) -> S {
    choose|s: S| is_pick(places, query, from, far, s)
}

/// Where among `places` the pick stands. There is none exactly when no
/// place fits the query.
pub fn find_pick<S: Place>(places: &Vec<S>, query: &S::Query, from: &P, far: bool) -> (found:
    Option<usize>)
    ensures
        found is None <==> none_fits(places@, *query),
        found matches Some(i) ==> i < places@.len() && is_pick(
            places@,
            *query,
            *from,
            far,
            places@[i as int],
        ),
{
    let mut best: Option<usize> = None;
    let mut best_distance: i64 = 0;
    let mut i: usize = 0;
    while i < places.len()
        invariant
            i <= places.len(),
            match best {
                Some(b) => {
                    &&& b < i
                    &&& places@[b as int].fits(*query)
                    &&& best_distance == distance(places@[b as int].place(), *from)
                    &&& forall|j: int|
                        0 <= j < i && (#[trigger] places@[j]).fits(*query) ==> ahead(
                            places@[b as int],
                            places@[j],
                            *from,
                            far,
                        )
                },
                None => forall|j: int| 0 <= j < i ==> !(#[trigger] places@[j]).fits(*query),
            },
        decreases places.len() - i,
    {
        let place = &places[i];
        if place.is_fit(query) {
            let d = place.position().near(from);
            let better = match best {
                Some(b) => (if far {
                    d > best_distance
                } else {
                    d < best_distance
                }) || (d == best_distance && place.ident_below(&places[b])),
                None => true,
            };
            if better {
                best = Some(i);
                best_distance = d;
            }
        }
        i += 1;
    }
    best
}

/// Where identifiers are distinct, at most one place is the pick.
pub proof fn lemma_pick_unique<S: Place>(
    places: Seq<S>,
    query: S::Query,
    from: P,
    far: bool,
    a: S,
    b: S,
)
    requires
        distinct(places),
        is_pick(places, query, from, far, a),
        is_pick(places, query, from, far, b),
    ensures
        a == b,
{
}

/// Where some place fits the query, one of them is the pick, and `pick`
/// names it.
pub proof fn lemma_pick_exists<S: Place>(places: Seq<S>, query: S::Query, from: P, far: bool)
    requires
        !none_fits(places, query),
    ensures
        is_pick(places, query, from, far, pick(places, query, from, far)),
    decreases places.len(),
{
    let some = choose|i: int| 0 <= i < places.len() && (#[trigger] places[i]).fits(query);
    let last = places.last();
    let init = places.drop_last();
    let best = if none_fits(init, query) {
        if some < init.len() {
            assert(init[some] == places[some]);
        }
        last
    } else {
        lemma_pick_exists(init, query, from, far);
        let before = pick(init, query, from, far);
        if last.fits(query) && !ahead(before, last, from, far) {
            last
        } else {
            before
        }
    };
    assert forall|i: int| 0 <= i < places.len() && (#[trigger] places[i]).fits(
        query,
    ) implies ahead(best, places[i], from, far) by {
        if i < init.len() {
            assert(init[i] == places[i]);
        }
    }
    assert(is_pick(places, query, from, far, best));
}

} // verus!
