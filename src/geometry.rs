use vstd::prelude::*;

verus! {

/// Bound on the magnitude of every coordinate that the geometric tests take:
/// with it all intermediate products fit in `i128`.
pub const COORD_LIMIT: i64 = 1073741824;

/// A point or a vector of the plane, in library units.
#[derive(Clone, Copy, Debug, PartialEq, Eq, Structural)]
pub struct Vec2 {
    pub x: i64,
    pub y: i64,
}

impl Vec2 {
    /// Both coordinates lie within `[-COORD_LIMIT, COORD_LIMIT]`.
    pub open spec fn in_field(self) -> bool {
        &&& -COORD_LIMIT <= self.x <= COORD_LIMIT
        &&& -COORD_LIMIT <= self.y <= COORD_LIMIT
    }

    /// Both coordinates lie within `[-2 * COORD_LIMIT, 2 * COORD_LIMIT]`, as
    /// those of the difference of two in-field points do.
    pub open spec fn in_span(self) -> bool {
        &&& -2 * COORD_LIMIT <= self.x <= 2 * COORD_LIMIT
        &&& -2 * COORD_LIMIT <= self.y <= 2 * COORD_LIMIT
    }

    pub fn new(x: i64, y: i64) -> (r: Vec2)
        ensures
            r.x == x,
            r.y == y,
    {
        Vec2 { x, y }
    }
}

/// Dot product of two vectors given by their components.
pub open spec fn dot(ax: int, ay: int, bx: int, by: int) -> int {
    ax * bx + ay * by
}

/// The directed segment from the first point to the second.
#[derive(Clone, Copy, Debug, PartialEq, Eq, Structural)]
pub struct Segment(pub Vec2, pub Vec2);

/// A circle given by its center and radius.
#[derive(Clone, Copy, Debug, PartialEq, Eq, Structural)]
pub struct Circle {
    pub center: Vec2,
    pub radius: i64,
}

/// Scalar projection of one vector onto another, kept as the exact fraction
/// `num / den`: `num` is the dot product of the two vectors and `den` the
/// squared length of the second.
#[derive(Clone, Copy, Debug, PartialEq, Eq, Structural)]
pub struct Projection {
    pub num: i128,
    pub den: i128,
}

impl Circle {
    pub open spec fn wf(self) -> bool {
        self.center.in_field() && 0 <= self.radius <= COORD_LIMIT
    }

    pub fn new(center: Vec2, radius: i64) -> (r: Circle)
        ensures
            r.center == center,
            r.radius == radius,
    {
        Circle { center, radius }
    }

    /// Whether the circle meets the segment `s = (A, B)` at the foot of the
    /// perpendicular from its center to the line `AB`.
    ///
    /// With `k = (AC . AB) / (AB . AB)`, the foot is `D = A + k * AB`; the
    /// circle meets the segment when `0 <= k <= 1` and `|C - D| <= radius`.
    /// A segment of length zero is never met. Everything is scaled by
    /// `AB . AB` so that it stays in the integers.
    pub open spec fn meets(self, s: Segment) -> bool {
        let acx = self.center.x - s.0.x;
        let acy = self.center.y - s.0.y;
        let abx = s.1.x - s.0.x;
        let aby = s.1.y - s.0.y;
        let num = dot(acx, acy, abx, aby);
        let den = dot(abx, aby, abx, aby);
        let gx = den * acx - num * abx;
        let gy = den * acy - num * aby;
        &&& den > 0
        &&& 0 <= num <= den
        &&& gx * gx + gy * gy <= self.radius * self.radius * den * den
    }

    pub fn circle_intersect_segment(&self, segment: &Segment) -> (r: bool)
        requires
            self.wf(),
            segment.0.in_field(),
            segment.1.in_field(),
        ensures
            r == self.meets(*segment),
    {
        let ac = Vec2 { x: self.center.x - segment.0.x, y: self.center.y - segment.0.y };
        let ab = Vec2 { x: segment.1.x - segment.0.x, y: segment.1.y - segment.0.y };
        let ghost (acx, acy, abx, aby) = (ac.x as int, ac.y as int, ab.x as int, ab.y as int);
        let p = vector_projection(ac, ab);
        if p.den == 0 || p.num < 0 || p.num > p.den {
            return false;
        }
        // The gap test, by Lagrange's identity: `cross^2 <= r^2 * den`.
        proof {
            lemma_lagrange(acx, acy, abx, aby);
            lemma_cross_bound(acx, acy, abx, aby);
            lemma_product_bound(abx, acy);
            lemma_product_bound(aby, acx);
        }
        let cross = (ab.x as i128) * (ac.y as i128) - (ab.y as i128) * (ac.x as i128);
        let r = self.radius as i128;
        assert(0 <= r * r <= COORD_LIMIT * COORD_LIMIT) by (nonlinear_arith)
            requires
                0 <= r <= COORD_LIMIT,
        ;
        assert(r * r * p.den <= COORD_LIMIT * COORD_LIMIT * (8 * COORD_LIMIT * COORD_LIMIT))
            by (nonlinear_arith)
            requires
                0 <= r * r <= COORD_LIMIT * COORD_LIMIT,
                0 <= p.den <= 8 * COORD_LIMIT * COORD_LIMIT,
        ;
        let res = cross * cross <= r * r * p.den;
        proof {
            lemma_scaled_compare(cross * cross, r * r, p.den as int);
        }
        res
    }
}

/// The circle never meets a segment when the foot of the perpendicular
/// from its centre falls outside the segment (`k < 0` or `k > 1`), however
/// close it comes to an end point: there is no rounding off at the ends.
pub proof fn lemma_outside_span_never_meets(c: Circle, s: Segment)
    requires
        ({
            let p = dot(c.center.x - s.0.x, c.center.y - s.0.y, s.1.x - s.0.x, s.1.y - s.0.y);
            let q = dot(s.1.x - s.0.x, s.1.y - s.0.y, s.1.x - s.0.x, s.1.y - s.0.y);
            p < 0 || p > q
        }),
    ensures
        !c.meets(s),
{
}

/// Projects `v1` onto `v2`: the projected vector is `(num / den) * v2`.
/// The vectors may be differences of two in-field points.
pub fn vector_projection(v1: Vec2, v2: Vec2) -> (r: Projection)
    requires
        v1.in_span(),
        v2.in_span(),
    ensures
        r.num == dot(v1.x as int, v1.y as int, v2.x as int, v2.y as int),
        r.den == dot(v2.x as int, v2.y as int, v2.x as int, v2.y as int),
        0 <= r.den <= 8 * COORD_LIMIT * COORD_LIMIT,
{
    let (ax, ay, bx, by) = (v1.x as i128, v1.y as i128, v2.x as i128, v2.y as i128);
    proof {
        lemma_product_bound(ax as int, bx as int);
        lemma_product_bound(ay as int, by as int);
        lemma_product_bound(bx as int, bx as int);
        lemma_product_bound(by as int, by as int);
    }
    assert(bx * bx >= 0 && by * by >= 0) by (nonlinear_arith);
    Projection { num: ax * bx + ay * by, den: bx * bx + by * by }
}

proof fn lemma_product_bound(a: int, b: int)
    requires
        -2 * COORD_LIMIT <= a <= 2 * COORD_LIMIT,
        -2 * COORD_LIMIT <= b <= 2 * COORD_LIMIT,
    ensures
        -4 * COORD_LIMIT * COORD_LIMIT <= a * b <= 4 * COORD_LIMIT * COORD_LIMIT,
{
    assert(-4 * COORD_LIMIT * COORD_LIMIT <= a * b <= 4 * COORD_LIMIT * COORD_LIMIT)
        by (nonlinear_arith)
        requires
            -2 * COORD_LIMIT <= a <= 2 * COORD_LIMIT,
            -2 * COORD_LIMIT <= b <= 2 * COORD_LIMIT,
    ;
}

/// The cross product of two wide vectors, and its square, fit in `i128`.
proof fn lemma_cross_bound(acx: int, acy: int, abx: int, aby: int)
    requires
        -2 * COORD_LIMIT <= acx <= 2 * COORD_LIMIT,
        -2 * COORD_LIMIT <= acy <= 2 * COORD_LIMIT,
        -2 * COORD_LIMIT <= abx <= 2 * COORD_LIMIT,
        -2 * COORD_LIMIT <= aby <= 2 * COORD_LIMIT,
    ensures
        -8 * COORD_LIMIT * COORD_LIMIT <= abx * acy - aby * acx <= 8 * COORD_LIMIT * COORD_LIMIT,
        0 <= (abx * acy - aby * acx) * (abx * acy - aby * acx) <= 64 * COORD_LIMIT * COORD_LIMIT
            * COORD_LIMIT * COORD_LIMIT,
{
    lemma_product_bound(abx, acy);
    lemma_product_bound(aby, acx);
    let c = abx * acy - aby * acx;
    assert(0 <= c * c <= 64 * COORD_LIMIT * COORD_LIMIT * COORD_LIMIT * COORD_LIMIT)
        by (nonlinear_arith)
        requires
            -8 * COORD_LIMIT * COORD_LIMIT <= c <= 8 * COORD_LIMIT * COORD_LIMIT,
    ;
}

/// Lagrange's identity in the plane: scaling the gap between `C` and the
/// foot of the perpendicular by `|AB|^2` gives `|AB|^2` times the squared
/// cross product.
proof fn lemma_lagrange(acx: int, acy: int, abx: int, aby: int)
    ensures
        ({
            let num = dot(acx, acy, abx, aby);
            let den = dot(abx, aby, abx, aby);
            let gx = den * acx - num * abx;
            let gy = den * acy - num * aby;
            let c = abx * acy - aby * acx;
            gx * gx + gy * gy == den * (c * c)
        }),
{
    let num = dot(acx, acy, abx, aby);
    let den = dot(abx, aby, abx, aby);
    let gx = den * acx - num * abx;
    let gy = den * acy - num * aby;
    let c = abx * acy - aby * acx;
    assert(gx == aby * (aby * acx - abx * acy)) by (nonlinear_arith)
        requires
            num == acx * abx + acy * aby,
            den == abx * abx + aby * aby,
            gx == den * acx - num * abx,
    ;
    assert(gy == abx * (abx * acy - aby * acx)) by (nonlinear_arith)
        requires
            num == acx * abx + acy * aby,
            den == abx * abx + aby * aby,
            gy == den * acy - num * aby,
    ;
    assert(gx * gx + gy * gy == den * (c * c)) by (nonlinear_arith)
        requires
            gx == aby * (-c),
            gy == abx * c,
            den == abx * abx + aby * aby,
    ;
}

/// For a positive `den`, `q * den <= s * den * den` exactly when `q <= s * den`.
proof fn lemma_scaled_compare(q: int, s: int, den: int)
    requires
        den > 0,
    ensures
        (den * q <= s * den * den) == (q <= s * den),
{
    assert((den * q <= s * den * den) == (q <= s * den)) by (nonlinear_arith)
        requires
            den > 0,
    ;
}

/// An axis-aligned rectangle given by its lower and upper corners.
#[derive(Clone, Copy, Debug, PartialEq, Eq, Structural)]
pub struct Rect {
    pub min: Vec2,
    pub max: Vec2,
}

impl Rect {
    /// The rectangle with opposite corners `(x0, y0)` and `(x1, y1)`, in
    /// either order.
    pub fn new(x0: i64, y0: i64, x1: i64, y1: i64) -> (r: Rect)
        ensures
            r.min.x == if x0 <= x1 { x0 } else { x1 },
            r.min.y == if y0 <= y1 { y0 } else { y1 },
            r.max.x == if x0 <= x1 { x1 } else { x0 },
            r.max.y == if y0 <= y1 { y1 } else { y0 },
    {
        let (min_x, max_x) = if x0 <= x1 { (x0, x1) } else { (x1, x0) };
        let (min_y, max_y) = if y0 <= y1 { (y0, y1) } else { (y1, y0) };
        Rect { min: Vec2 { x: min_x, y: min_y }, max: Vec2 { x: max_x, y: max_y } }
    }

    /// The point lies in the rectangle, its border included.
    pub open spec fn holds(self, p: Vec2) -> bool {
        &&& self.min.x <= p.x <= self.max.x
        &&& self.min.y <= p.y <= self.max.y
    }

    pub fn contains(&self, p: Vec2) -> (r: bool)
        ensures
            r == self.holds(p),
    {
        self.min.x <= p.x && p.x <= self.max.x && self.min.y <= p.y && p.y <= self.max.y
    }
}

} // verus!
