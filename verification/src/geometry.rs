//! Points of the map and the whole-number distance between them.

use vstd::prelude::*;

verus! {

/// A point of the map, `P(x, y)`.
#[derive(Clone, Copy, Debug, PartialEq, Eq, Structural)]
pub struct P(pub i32, pub i32);

/// The square of the Euclidean distance between `a` and `b`.
pub open spec fn square_distance(a: P, b: P) -> int {
    (b.0 - a.0) * (b.0 - a.0) + (b.1 - a.1) * (b.1 - a.1)
}

/// `r` is the square root of `n`, cut down to a whole number.
pub open spec fn is_floor_sqrt(n: int, r: int) -> bool {
    0 <= r && r * r <= n < (r + 1) * (r + 1)
}

/// The square root of `n`, cut down to a whole number.
pub open spec fn floor_sqrt(n: int) -> int {
    choose|r: int| is_floor_sqrt(n, r)
}

/// The Euclidean distance between `a` and `b`, cut down to a whole number.
pub open spec fn distance(a: P, b: P) -> int {
    floor_sqrt(square_distance(a, b))
}

/// No number has two whole square roots.
pub proof fn lemma_floor_sqrt_unique(n: int, r1: int, r2: int)
    requires
        is_floor_sqrt(n, r1),
        is_floor_sqrt(n, r2),
    ensures
        r1 == r2,
{
    if r1 < r2 {
        assert((r1 + 1) * (r1 + 1) <= r2 * r2) by (nonlinear_arith)
            requires
                0 <= r1,
                r1 + 1 <= r2,
        ;
    } else if r2 < r1 {
        assert((r2 + 1) * (r2 + 1) <= r1 * r1) by (nonlinear_arith)
            requires
                0 <= r2,
                r2 + 1 <= r1,
        ;
    }
}

/// A number that passes the test for the whole square root of `n` is
/// `floor_sqrt(n)`.
pub proof fn lemma_floor_sqrt_is(n: int, r: int)
    requires
        is_floor_sqrt(n, r),
    ensures
        floor_sqrt(n) == r,
{
    lemma_floor_sqrt_unique(n, floor_sqrt(n), r);
}

/// Every number from 0 on has a whole square root, and `floor_sqrt` names it.
pub proof fn lemma_floor_sqrt_exists(n: int)
    requires
        0 <= n,
    ensures
        is_floor_sqrt(n, floor_sqrt(n)),
    decreases n,
{
    if n == 0 {
        assert(is_floor_sqrt(0, 0));
    } else {
        lemma_floor_sqrt_exists(n - 1);
        let r = floor_sqrt(n - 1);
        if (r + 1) * (r + 1) <= n {
            assert(n < (r + 2) * (r + 2)) by (nonlinear_arith)
                requires
                    0 <= r,
                    n - 1 < (r + 1) * (r + 1),
            ;
            assert(is_floor_sqrt(n, r + 1));
        } else {
            assert(is_floor_sqrt(n, r));
        }
    }
}

/// How far apart two coordinates are.
fn gap(a: i32, b: i32) -> (g: u64)
    ensures
        g == if a <= b { b - a } else { a - b },
{
    if a <= b {
        (b as i64 - a as i64) as u64
    } else {
        (a as i64 - b as i64) as u64
    }
}

impl P {
    /// The first coordinate.
    pub fn x(&self) -> (x: i32)
        ensures
            x == self.0,
    {
        self.0
    }

    /// The second coordinate.
    pub fn y(&self) -> (y: i32)
        ensures
            y == self.1,
    {
        self.1
    }

    /// The distance from `self` to `other`, cut down to a whole number.
    pub fn near(&self, other: &P) -> (d: i64)
        ensures
            d == distance(*self, *other),
            is_floor_sqrt(square_distance(*self, *other), d as int),
    {
        let dx: u64 = gap(self.0, other.0);
        let dy: u64 = gap(self.1, other.1);
        assert(dx * dx == (other.0 - self.0) * (other.0 - self.0)) by (nonlinear_arith)
            requires
                dx == other.0 - self.0 || dx == self.0 - other.0,
        ;
        assert(dy * dy == (other.1 - self.1) * (other.1 - self.1)) by (nonlinear_arith)
            requires
                dy == other.1 - self.1 || dy == self.1 - other.1,
        ;
        assert(dx * dx <= 0xffff_ffff * 0xffff_ffff) by (nonlinear_arith)
            requires
                dx <= 0xffff_ffff,
        ;
        assert(dy * dy <= 0xffff_ffff * 0xffff_ffff) by (nonlinear_arith)
            requires
                dy <= 0xffff_ffff,
        ;
        let n: u128 = (dx as u128) * (dx as u128) + (dy as u128) * (dy as u128);
        let mut lo: u64 = 0;
        let mut hi: u64 = 0x2_0000_0000;
        while hi - lo > 1
            invariant
                lo < hi <= 0x2_0000_0000,
                lo * lo <= n < hi * hi,
            decreases hi - lo,
        {
            let mid: u64 = lo + (hi - lo) / 2;
            assert(mid * mid <= 0x2_0000_0000 * 0x2_0000_0000) by (nonlinear_arith)
                requires
                    mid <= 0x2_0000_0000,
            ;
            if (mid as u128) * (mid as u128) <= n {
                lo = mid;
            } else {
                hi = mid;
            }
        }
        proof {
            lemma_floor_sqrt_is(square_distance(*self, *other), lo as int);
        }
        lo as i64
    }
}

/// The distance is the whole square root of the squared distance: the
/// largest whole number whose square does not exceed it.
pub proof fn lemma_distance_is_floor_sqrt(a: P, b: P)
    ensures
        is_floor_sqrt(square_distance(a, b), distance(a, b)),
{
    assert(0 <= square_distance(a, b)) by (nonlinear_arith);
    lemma_floor_sqrt_exists(square_distance(a, b));
}

/// The distance from `a` to `b` is the distance from `b` to `a`.
pub proof fn lemma_distance_symmetric(a: P, b: P)
    ensures
        distance(a, b) == distance(b, a),
{
    assert((b.0 - a.0) * (b.0 - a.0) == (a.0 - b.0) * (a.0 - b.0)) by (nonlinear_arith);
    assert((b.1 - a.1) * (b.1 - a.1) == (a.1 - b.1) * (a.1 - b.1)) by (nonlinear_arith);
}

/// A point is at distance 0 from itself.
pub proof fn lemma_distance_to_self(p: P)
    ensures
        distance(p, p) == 0,
{
    lemma_floor_sqrt_is(square_distance(p, p), 0);
}

} // verus!
