//! Rasterisation of a straight segment onto the integer grid.

use vstd::prelude::*;

verus! {

/// The distance between `a` and `b` on one axis.
pub open spec fn abs_diff(a: int, b: int) -> int {
    if a <= b {
        b - a
    } else {
        a - b
    }
}

/// The coordinate `n` steps from `from` in the direction of `to`
/// (downward when the two are equal).
pub open spec fn advance(from: int, to: int, n: int) -> int {
    if from < to {
        from + n
    } else {
        from - n
    }
}

/// How many steps the minor axis has taken at step `k` of the major axis:
/// `k * minor / major`, rounded to the nearest integer, halves rounded up.
pub open spec fn minor_offset(k: int, major: int, minor: int) -> int {
    (2 * k * minor + major) / (2 * major)
}

/// The number of steps along the longer axis of the segment.
pub open spec fn major_steps(x1: int, z1: int, x2: int, z2: int) -> int {
    let dx = abs_diff(x1, x2);
    let dz = abs_diff(z1, z2);
    if dx >= dz {
        dx
    } else {
        dz
    }
}

/// The `k`-th grid point of the segment from `(x1, z1)` to `(x2, z2)`: the
/// longer axis advances by one at each step, the shorter one follows the
/// ideal line to the nearest cell, and the last point is the end point.
pub open spec fn line_point(x1: int, z1: int, x2: int, z2: int, k: int) -> (int, int) {
    let dx = abs_diff(x1, x2);
    let dz = abs_diff(z1, z2);
    if k == major_steps(x1, z1, x2, z2) {
        (x2, z2)
    } else if dx >= dz {
        (advance(x1, x2, k), advance(z1, z2, minor_offset(k, dx, dz)))
    } else {
        (advance(x1, x2, minor_offset(k, dz, dx)), advance(z1, z2, k))
    }
}

proof fn lemma_offset(k: int, a: int, b: int, t: int)
    requires
        0 <= k <= a,
        0 <= b <= a,
        0 < a,
        -a <= 2 * (k * b - t * a) < a,
    ensures
        0 <= t <= b,
        t == minor_offset(k, a, b),
{
    let n = 2 * k * b + a;
    let m = 2 * a;
    assert(t * m <= n < t * m + m) by (nonlinear_arith)
        requires
            n == 2 * k * b + a,
            m == 2 * a,
            -a <= 2 * (k * b - t * a) < a,
    ;
    vstd::arithmetic::div_mod::lemma_fundamental_div_mod(n, m);
    let q = n / m;
    let r = n % m;
    assert(q == t) by (nonlinear_arith)
        requires
            n == m * q + r,
            0 <= r < m,
            t * m <= n < t * m + m,
            m > 0,
    ;
    assert(0 <= t <= b) by (nonlinear_arith)
        requires
            0 <= k <= a,
            0 <= b <= a,
            0 < a,
            t * m <= n < t * m + m,
            n == 2 * k * b + a,
            m == 2 * a,
    ;
}

/// The grid points of the segment from `(x1, z1)` to `(x2, z2)`, in order from
/// the first end to the second, both included.
pub fn bresenham_line(x1: i32, z1: i32, x2: i32, z2: i32) -> (r: Vec<(i32, i32)>)
    ensures
        r@.len() == major_steps(x1 as int, z1 as int, x2 as int, z2 as int) + 1,
        forall|k: int|
            0 <= k < r@.len() ==> (#[trigger] r@[k].0 as int, r@[k].1 as int) == line_point(
                x1 as int,
                z1 as int,
                x2 as int,
                z2 as int,
                k,
            ),
{
    let dx: i64 = if x1 <= x2 {
        x2 as i64 - x1 as i64
    } else {
        x1 as i64 - x2 as i64
    };
    let dz: i64 = if z1 <= z2 {
        z2 as i64 - z1 as i64
    } else {
        z1 as i64 - z2 as i64
    };
    let x_major = dx >= dz;
    let (a1, a2, b1, b2, dmaj, dmin) = if x_major {
        (x1 as i64, x2 as i64, z1 as i64, z2 as i64, dx, dz)
    } else {
        (z1 as i64, z2 as i64, x1 as i64, x2 as i64, dz, dx)
    };
    let mut out: Vec<(i32, i32)> = Vec::new();
    let mut major: i64 = a1;
    let mut minor: i64 = b1;
    let mut p: i64 = 2 * dmin - dmaj;
    let ghost mut k: int = 0;
    let ghost mut t: int = 0;
    let ghost mut e: int = 0;
    while major != a2
        invariant
            dmaj == abs_diff(a1 as int, a2 as int),
            dmin == abs_diff(b1 as int, b2 as int),
            0 <= dmin <= dmaj <= 0x1_0000_0000,
            dmaj == major_steps(x1 as int, z1 as int, x2 as int, z2 as int),
            x_major == (dx >= dz),
            x_major ==> a1 == x1 && a2 == x2 && b1 == z1 && b2 == z2 && dmaj == dx && dmin == dz,
            !x_major ==> a1 == z1 && a2 == z2 && b1 == x1 && b2 == x2 && dmaj == dz && dmin == dx,
            dx == abs_diff(x1 as int, x2 as int),
            dz == abs_diff(z1 as int, z2 as int),
            0 <= k <= dmaj,
            0 <= t <= k,
            major == advance(a1 as int, a2 as int, k),
            minor == advance(b1 as int, b2 as int, t),
            e == k * dmin - t * dmaj,
            p == 2 * e + 2 * dmin - dmaj,
            -dmaj <= 2 * e <= dmaj,
            dmaj > 0 ==> 2 * e < dmaj,
            out@.len() == k,
            forall|j: int|
                0 <= j < k ==> (#[trigger] out@[j].0 as int, out@[j].1 as int) == line_point(
                    x1 as int,
                    z1 as int,
                    x2 as int,
                    z2 as int,
                    j,
                ),
        decreases dmaj - k,
    {
        let ghost t0 = t;
        let ghost e0 = e;
        proof {
            lemma_offset(k, dmaj as int, dmin as int, t);
        }
        let pt: (i32, i32) = if x_major {
            (major as i32, minor as i32)
        } else {
            (minor as i32, major as i32)
        };
        out.push(pt);
        if p >= 0 {
            if b1 < b2 {
                minor = minor + 1;
            } else {
                minor = minor - 1;
            }
            p = p - 2 * dmaj;
            proof {
                t = t + 1;
                e = e - dmaj;
            }
        }
        p = p + 2 * dmin;
        if a1 < a2 {
            major = major + 1;
        } else {
            major = major - 1;
        }
        proof {
            e = e + dmin;
            assert(e == (k + 1) * dmin - t * dmaj) by (nonlinear_arith)
                requires
                    e0 == k * dmin - t0 * dmaj,
                    (t == t0 && e == e0 + dmin) || (t == t0 + 1 && e == e0 - dmaj + dmin),
            ;
            k = k + 1;
        }
    }
    out.push((x2, z2));
    out
}

proof fn lemma_offset_step(k: int, a: int, b: int)
    requires
        0 < a,
        0 <= b <= a,
        0 <= k,
    ensures
        0 <= minor_offset(k + 1, a, b) - minor_offset(k, a, b) <= 1,
        minor_offset(a, a, b) == b,
{
    let m = 2 * a;
    let n0 = 2 * k * b + a;
    let n1 = 2 * (k + 1) * b + a;
    vstd::arithmetic::div_mod::lemma_fundamental_div_mod(n0, m);
    vstd::arithmetic::div_mod::lemma_fundamental_div_mod(n1, m);
    let (q0, r0, q1, r1) = (n0 / m, n0 % m, n1 / m, n1 % m);
    assert(n1 == n0 + 2 * b) by (nonlinear_arith)
        requires
            n0 == 2 * k * b + a,
            n1 == 2 * (k + 1) * b + a,
    ;
    assert(0 <= q1 - q0 <= 1) by (nonlinear_arith)
        requires
            n0 == m * q0 + r0,
            n1 == m * q1 + r1,
            0 <= r0 < m,
            0 <= r1 < m,
            n1 == n0 + 2 * b,
            0 <= 2 * b <= m,
    ;
    let na = 2 * a * b + a;
    vstd::arithmetic::div_mod::lemma_fundamental_div_mod(na, m);
    let (qa, ra) = (na / m, na % m);
    assert(qa == b) by (nonlinear_arith)
        requires
            na == m * qa + ra,
            0 <= ra < m,
            na == 2 * a * b + a,
            m == 2 * a,
            a > 0,
    ;
}

/// Consecutive points of a segment are neighbours on the grid: each axis moves
/// by at most one cell from a point to the next, so the segment has no gaps.
pub proof fn lemma_line_connected(x1: int, z1: int, x2: int, z2: int, k: int)
    requires
        0 <= k < major_steps(x1, z1, x2, z2),
    ensures
        abs_diff(line_point(x1, z1, x2, z2, k).0, line_point(x1, z1, x2, z2, k + 1).0) <= 1,
        abs_diff(line_point(x1, z1, x2, z2, k).1, line_point(x1, z1, x2, z2, k + 1).1) <= 1,
{
    let dx = abs_diff(x1, x2);
    let dz = abs_diff(z1, z2);
    if dx >= dz {
        lemma_offset_step(k, dx, dz);
        assert(x2 == advance(x1, x2, dx));
        assert(z2 == advance(z1, z2, dz));
    } else {
        lemma_offset_step(k, dz, dx);
        assert(x2 == advance(x1, x2, dx));
        assert(z2 == advance(z1, z2, dz));
    }
}

} // verus!
