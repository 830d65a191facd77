//! Fixed-point plane geometry: vectors in milli-units, squared distance, an
//! integer square root, and the truncated division used to scale a pursuit
//! vector to a fixed speed.
use vstd::prelude::*;
use vstd::arithmetic::div_mod::lemma_div_is_ordered;
use vstd::arithmetic::div_mod::lemma_div_multiples_vanish;

verus! {

/// Coordinates handed to the core are bounded so that squared distances and
/// scaled velocity products stay well inside `i64`/`u64` range.
pub const MAX_COORD_MILLI: i64 = 2_000_000;

/// Speeds handed to the core are bounded so that `|delta| * speed` fits `u64`.
pub const MAX_SPEED_MILLI: i64 = 1_000_000;

/// A plane vector in fixed-point milli-units (one world unit = 1000).
#[derive(Clone, Copy, PartialEq, Eq, Structural, Debug)]
pub struct Vec2Fx {
    pub x: i64,
    pub y: i64,
}

impl Vec2Fx {
    pub open spec fn spec_zero() -> Vec2Fx {
        Vec2Fx { x: 0, y: 0 }
    }

    pub fn zero() -> (r: Vec2Fx)
        ensures
            r == Vec2Fx::spec_zero(),
    {
        Vec2Fx { x: 0, y: 0 }
    }

    pub open spec fn in_coord_range(self) -> bool {
        -MAX_COORD_MILLI <= self.x <= MAX_COORD_MILLI && -MAX_COORD_MILLI <= self.y
            <= MAX_COORD_MILLI
    }
}

/// Squared Euclidean distance between two points.
pub open spec fn dist2(a: Vec2Fx, b: Vec2Fx) -> int {
    (b.x - a.x) * (b.x - a.x) + (b.y - a.y) * (b.y - a.y)
}

/// The floor of the square root of `n`: the greatest `r` with `r * r <= n`.
pub open spec fn sqrt_floor(n: nat) -> nat
    decreases n,
{
    if n == 0 {
        0
    } else {
        let s = sqrt_floor((n - 1) as nat);
        if (s + 1) * (s + 1) <= n {
            s + 1
        } else {
            s
        }
    }
}

pub proof fn lemma_sqrt_floor_bounds(n: nat)
    ensures
        sqrt_floor(n) * sqrt_floor(n) <= n,
        n < (sqrt_floor(n) + 1) * (sqrt_floor(n) + 1),
    decreases n,
{
    if n == 0 {
        assert(sqrt_floor(0) == 0);
        assert(0 < (0 + 1) * (0 + 1)) by (nonlinear_arith);
    } else {
        lemma_sqrt_floor_bounds((n - 1) as nat);
        let s = sqrt_floor((n - 1) as nat);
        if (s + 1) * (s + 1) <= n {
            assert(sqrt_floor(n) == s + 1);
            assert(n <= (s + 1) * (s + 1)) by {
                assert(n - 1 < (s + 1) * (s + 1));
            }
            assert(n < (s + 1 + 1) * (s + 1 + 1)) by (nonlinear_arith)
                requires s >= 0, n <= (s + 1) * (s + 1);
        } else {
            assert(sqrt_floor(n) == s);
            assert(n < (s + 1) * (s + 1));
        }
    }
}

/// The bounds `r * r <= n < (r + 1) * (r + 1)` pin `r` down to `sqrt_floor(n)`.
pub proof fn lemma_sqrt_floor_unique(n: nat, r: nat)
    requires
        r * r <= n,
        n < (r + 1) * (r + 1),
    ensures
        r == sqrt_floor(n),
{
    let s = sqrt_floor(n);
    lemma_sqrt_floor_bounds(n);
    if r < s {
        assert((r + 1) * (r + 1) <= s * s) by (nonlinear_arith)
            requires 0 <= r, r < s;
        assert(false);
    }
    if s < r {
        assert((s + 1) * (s + 1) <= r * r) by (nonlinear_arith)
            requires 0 <= s, s < r;
        assert(false);
    }
}

/// Integer square root by binary search.
pub fn isqrt(n: u64) -> (r: u64)
    requires
        n < 0x4000_0000_0000_0000,
    ensures
        r == sqrt_floor(n as nat),
{
    let mut lo: u64 = 0;
    let mut hi: u64 = 0x8000_0000;
    assert((hi as int) * (hi as int) == 0x4000_0000_0000_0000) by (nonlinear_arith)
        requires hi == 0x8000_0000u64;
    while lo + 1 < hi
        invariant
            lo < hi <= 0x8000_0000,
            (lo as int) * (lo as int) <= n as int,
            (n as int) < (hi as int) * (hi as int),
        decreases hi - lo,
    {
        let mid = lo + (hi - lo) / 2;
        assert((mid as int) * (mid as int) <= 0x4000_0000_0000_0000) by (nonlinear_arith)
            requires 0 <= mid as int <= 0x8000_0000;
        if mid * mid <= n {
            lo = mid;
        } else {
            hi = mid;
        }
    }
    proof {
        lemma_sqrt_floor_unique(n as nat, lo as nat);
    }
    lo
}

/// Division that truncates toward zero (for a positive divisor), as `i64`
/// division in executable code does.
pub open spec fn div_trunc(a: int, b: int) -> int {
    if a >= 0 {
        a / b
    } else {
        -((-a) / b)
    }
}

/// The velocity with which a pursuer at `from` closes on a target at `to`:
/// the displacement scaled to magnitude `speed` (componentwise truncated
/// division by the floor square root of the squared distance), or zero when
/// the two points coincide, so that no division by zero can arise.
pub open spec fn spec_pursuit(from: Vec2Fx, to: Vec2Fx, speed: int) -> Vec2Fx {
    if dist2(from, to) == 0 {
        Vec2Fx::spec_zero()
    } else {
        Vec2Fx {
            x: div_trunc((to.x - from.x) * speed, sqrt_floor(dist2(from, to) as nat) as int) as i64,
            y: div_trunc((to.y - from.y) * speed, sqrt_floor(dist2(from, to) as nat) as int) as i64,
        }
    }
}

pub fn pursuit_velocity(from: Vec2Fx, to: Vec2Fx, speed: i64) -> (v: Vec2Fx)
    requires
        from.in_coord_range(),
        to.in_coord_range(),
        0 <= speed <= MAX_SPEED_MILLI,
    ensures
        v == spec_pursuit(from, to, speed as int),
        dist2(from, to) == 0 ==> v == Vec2Fx::spec_zero(),
        -speed <= v.x <= speed,
        -speed <= v.y <= speed,
{
    let ghost d2 = dist2(from, to);
    let dx: i64 = to.x - from.x;
    let dy: i64 = to.y - from.y;
    let dxa: u64 = if dx >= 0 {
        dx as u64
    } else {
        (-dx) as u64
    };
    let dya: u64 = if dy >= 0 {
        dy as u64
    } else {
        (-dy) as u64
    };
    assert(dxa as int * dxa as int == (dx as int) * (dx as int)) by (nonlinear_arith)
        requires dxa as int == if dx as int >= 0 { dx as int } else { -(dx as int) };
    assert(dya as int * dya as int == (dy as int) * (dy as int)) by (nonlinear_arith)
        requires dya as int == if dy as int >= 0 { dy as int } else { -(dy as int) };
    assert(dxa as int * dxa as int <= 16_000_000_000_000) by (nonlinear_arith)
        requires 0 <= dxa as int <= 4_000_000;
    assert(dya as int * dya as int <= 16_000_000_000_000) by (nonlinear_arith)
        requires 0 <= dya as int <= 4_000_000;
    let d2u: u64 = dxa * dxa + dya * dya;
    assert(d2u as int == d2);
    let m: u64 = isqrt(d2u);
    if m == 0 {
        proof {
            lemma_sqrt_floor_bounds(d2u as nat);
            assert(sqrt_floor(d2u as nat) == 0);
            assert((d2u as int) < (0 + 1) * (0 + 1));
            assert((0 + 1) * (0 + 1) == 1) by (nonlinear_arith);
        }
        assert(d2 == 0);
        Vec2Fx { x: 0, y: 0 }
    } else {
        proof {
            lemma_sqrt_floor_bounds(d2u as nat);
            assert(dxa as int <= m as int) by (nonlinear_arith)
                requires
                    0 <= dxa,
                    0 < m,
                    dxa as int * dxa as int <= d2u as int,
                    (d2u as int) < (m as int + 1) * (m as int + 1);
            assert(dya as int <= m as int) by (nonlinear_arith)
                requires
                    0 <= dya,
                    0 < m,
                    dya as int * dya as int <= d2u as int,
                    (d2u as int) < (m as int + 1) * (m as int + 1);
            assert(dxa as int * speed as int <= m as int * speed as int) by (nonlinear_arith)
                requires 0 <= dxa as int <= m as int, 0 <= speed as int;
            assert(dya as int * speed as int <= m as int * speed as int) by (nonlinear_arith)
                requires 0 <= dya as int <= m as int, 0 <= speed as int;
            assert(dxa as int * speed as int <= 4_000_000_000_000) by (nonlinear_arith)
                requires 0 <= dxa as int <= 4_000_000, 0 <= speed as int <= 1_000_000;
            assert(dya as int * speed as int <= 4_000_000_000_000) by (nonlinear_arith)
                requires 0 <= dya as int <= 4_000_000, 0 <= speed as int <= 1_000_000;
            lemma_div_is_ordered(dxa as int * speed as int, m as int * speed as int, m as int);
            lemma_div_is_ordered(dya as int * speed as int, m as int * speed as int, m as int);
            lemma_div_multiples_vanish(speed as int, m as int);
        }
        let vxa: u64 = dxa * (speed as u64) / m;
        let vya: u64 = dya * (speed as u64) / m;
        let vx: i64 = if dx >= 0 {
            vxa as i64
        } else {
            -(vxa as i64)
        };
        let vy: i64 = if dy >= 0 {
            vya as i64
        } else {
            -(vya as i64)
        };
        assert(vx as int == div_trunc((to.x - from.x) * speed, sqrt_floor(d2 as nat) as int)) by {
            assert(dxa as int * speed as int == if dx as int >= 0 {
                (dx as int) * speed
            } else {
                -((dx as int) * speed)
            }) by (nonlinear_arith)
                requires dxa as int == if dx as int >= 0 { dx as int } else { -(dx as int) };
        }
        assert(vy as int == div_trunc((to.y - from.y) * speed, sqrt_floor(d2 as nat) as int)) by {
            assert(dya as int * speed as int == if dy as int >= 0 {
                (dy as int) * speed
            } else {
                -((dy as int) * speed)
            }) by (nonlinear_arith)
                requires dya as int == if dy as int >= 0 { dy as int } else { -(dy as int) };
        }
        Vec2Fx { x: vx, y: vy }
    }
}

} // verus!
