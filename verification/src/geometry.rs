//! Points in space and exact distances between them.

use vstd::prelude::*;

verus! {

/// A Cartesian point; each coordinate is a whole number of micrometres.
#[derive(Clone, Copy, Debug, PartialEq, Eq, Structural)]
pub struct Point {
    pub x: i32,
    pub y: i32,
    pub z: i32,
}

/// `v` times itself.
pub open spec fn square(v: int) -> int {
    v * v
}

/// Whether `r` is the square root of `n` rounded down.
pub open spec fn is_floor_sqrt(n: nat, r: nat) -> bool {
    r * r <= n && n < (r + 1) * (r + 1)
}

/// The integer square root of `n`: the one `r` with `r*r <= n < (r+1)*(r+1)`.
pub open spec fn isqrt(n: nat) -> nat {
    choose|r: nat| is_floor_sqrt(n, r)
}

/// Every natural number has an integer square root.
pub proof fn lemma_isqrt_brackets(n: nat)
    ensures
        is_floor_sqrt(n, isqrt(n)),
        isqrt(n) * isqrt(n) <= n,
        n < (isqrt(n) + 1) * (isqrt(n) + 1),
    decreases n,
{
    if n == 0 {
        assert(0nat * 0nat <= 0nat && 0nat < (0nat + 1) * (0nat + 1)) by (nonlinear_arith);
        assert(is_floor_sqrt(0, 0));
    } else {
        lemma_isqrt_brackets((n - 1) as nat);
        let r = isqrt((n - 1) as nat);
        if n < (r + 1) * (r + 1) {
            assert(is_floor_sqrt(n, r));
        } else {
            assert((r + 1) * (r + 1) <= n && n < (r + 1 + 1) * (r + 1 + 1)) by (nonlinear_arith)
                requires
                    r * r <= n - 1,
                    n - 1 < (r + 1) * (r + 1),
                    n >= (r + 1) * (r + 1),
            ;
            assert(is_floor_sqrt(n, r + 1));
        }
    }
}

/// Whoever lies between the squares of `r` and `r + 1` has `r` as its
/// integer square root.
pub proof fn lemma_isqrt_unique(n: nat, r: nat)
    requires
        r * r <= n,
        n < (r + 1) * (r + 1),
    ensures
        isqrt(n) == r,
{
    let s = isqrt(n);
    assert(is_floor_sqrt(n, r));
    assert(is_floor_sqrt(n, s));
    assert(s == r) by (nonlinear_arith)
        requires
            s * s <= n,
            n < (s + 1) * (s + 1),
            r * r <= n,
            n < (r + 1) * (r + 1),
    ;
}

/// A product of two bounded naturals is bounded by the product of the bounds.
pub proof fn lemma_product_bound(a: int, b: int, m: int)
    requires
        0 <= a <= m,
        0 <= b <= m,
    ensures
        0 <= a * b <= m * m,
{
    assert(0 <= a * b <= m * m) by (nonlinear_arith)
        requires
            0 <= a <= m,
            0 <= b <= m,
    ;
}

/// The square of a number no larger than `m` in size is at most `m * m`.
pub proof fn lemma_square_bound(v: int, m: int)
    requires
        -m <= v <= m,
    ensures
        0 <= square(v) <= m * m,
{
    assert(0 <= v * v <= m * m) by (nonlinear_arith)
        requires
            -m <= v <= m,
    ;
}

/// Computes the integer square root by bisection.
pub fn integer_sqrt(n: u128) -> (r: u64)
    ensures
        r as nat == isqrt(n as nat),
        r * r <= n,
        n < (r + 1) * (r + 1),
{
    let mut lo: u128 = 0;
    let mut hi: u128 = 0x1_0000_0000_0000_0000;
    assert(n < hi * hi) by (nonlinear_arith)
        requires
            hi == 0x1_0000_0000_0000_0000,
            n <= u128::MAX,
    ;
    while hi - lo > 1
        invariant
            lo < hi <= 0x1_0000_0000_0000_0000,
            lo * lo <= n,
            n < hi * hi,
        decreases hi - lo,
    {
        let mid: u128 = lo + (hi - lo) / 2;
        proof {
            lemma_product_bound(mid as int, mid as int, 0xffff_ffff_ffff_ffff);
        }
        if mid * mid <= n {
            lo = mid;
        } else {
            hi = mid;
        }
    }
    proof {
        lemma_isqrt_unique(n as nat, lo as nat);
    }
    lo as u64
}

impl Point {
    /// The squared distance of the point from the origin.
    pub open spec fn norm_sq(self) -> int {
        square(self.x as int) + square(self.y as int) + square(self.z as int)
    }

    /// The squared distance between two points.
    pub open spec fn dist_sq(self, other: Point) -> int {
        square(other.x - self.x) + square(other.y - self.y) + square(other.z - self.z)
    }

    /// The distance of the point from the origin, rounded down.
    pub open spec fn spec_norm(self) -> nat {
        isqrt(self.norm_sq() as nat)
    }

    /// The distance between two points, rounded down.
    pub open spec fn spec_distance(self, other: Point) -> nat {
        isqrt(self.dist_sq(other) as nat)
    }

    /// The point with the coordinates given.
    pub fn new(x: i32, y: i32, z: i32) -> (p: Point)
        ensures
            p == (Point { x, y, z }),
    {
        Point { x, y, z }
    }

    /// The origin.
    pub fn zero() -> (p: Point)
        ensures
            p == (Point { x: 0, y: 0, z: 0 }),
    {
        Point { x: 0, y: 0, z: 0 }
    }

    /// The squared distance from the origin.
    pub fn norm_squared(self) -> (r: u64)
        ensures
            r == self.norm_sq(),
    {
        proof {
            lemma_square_bound(self.x as int, 0x8000_0000);
            lemma_square_bound(self.y as int, 0x8000_0000);
            lemma_square_bound(self.z as int, 0x8000_0000);
        }
        let xx: u64 = square_of(self.x as i64);
        let yy: u64 = square_of(self.y as i64);
        let zz: u64 = square_of(self.z as i64);
        xx + yy + zz
    }

    /// The squared distance to `other`.
    pub fn distance_squared(self, other: Point) -> (r: u128)
        ensures
            r == self.dist_sq(other),
    {
        let dx: u64 = square_of(other.x as i64 - self.x as i64);
        let dy: u64 = square_of(other.y as i64 - self.y as i64);
        let dz: u64 = square_of(other.z as i64 - self.z as i64);
        dx as u128 + dy as u128 + dz as u128
    }

    /// The distance from the origin, rounded down to a whole micrometre.
    pub fn norm(self) -> (r: u64)
        ensures
            r == self.spec_norm(),
    {
        integer_sqrt(self.norm_squared() as u128)
    }

    /// The distance to `other`, rounded down to a whole micrometre.
    pub fn distance(self, other: Point) -> (r: u64)
        ensures
            r == self.spec_distance(other),
            r <= 0x1_ffff_ffff,
    {
        let d2: u128 = self.distance_squared(other);
        let r: u64 = integer_sqrt(d2);
        proof {
            lemma_square_bound(other.x - self.x, 0xffff_ffff);
            lemma_square_bound(other.y - self.y, 0xffff_ffff);
            lemma_square_bound(other.z - self.z, 0xffff_ffff);
            assert(r <= 0x1_ffff_ffff) by (nonlinear_arith)
                requires
                    r * r <= d2,
                    d2 <= 3 * (0xffff_ffff * 0xffff_ffff),
            ;
        }
        r
    }
}

/// Squares a difference of two coordinates.
fn square_of(v: i64) -> (r: u64)
    requires
        -0xffff_ffff <= v <= 0xffff_ffff,
    ensures
        r == square(v as int),
{
    let m: u64 = if v < 0 { (-v) as u64 } else { v as u64 };
    proof {
        lemma_product_bound(m as int, m as int, 0xffff_ffff);
        assert(m * m == v * v) by (nonlinear_arith)
            requires
                m == v || m == -v,
        ;
    }
    m * m
}

} // verus!
