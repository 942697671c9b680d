use vstd::arithmetic::div_mod::{lemma_div_is_ordered, lemma_div_multiples_vanish, lemma_div_pos_is_pos};
use vstd::prelude::*;

verus! {

/// Fixed-point scale: one unit of world space, and the full length of one
/// animation, are both represented by this many raw ticks.
pub const ONE: i64 = 4096;

/// Largest grid coordinate the camera works with; keeps every intermediate
/// product of the interpolation inside `i64`.
pub const POS_MAX: i64 = 1073741824;

/// Largest fixed-point coordinate of a well-formed point.
pub const COORD_MAX: i64 = POS_MAX * ONE;

/// A continuous point in world space, in fixed-point coordinates
/// (a raw value of `ONE` stands for 1.0 world units).
#[derive(Clone, Copy, PartialEq, Eq, Structural, Debug)]
pub struct Point {
    pub x: i64,
    pub y: i64,
}

impl Point {
    /// Coordinates small enough that interpolation arithmetic cannot overflow.
    pub open spec fn wf(self) -> bool {
        &&& -COORD_MAX <= self.x <= COORD_MAX
        &&& -COORD_MAX <= self.y <= COORD_MAX
    }
}

/// One animation segment: progress `t` runs from 0 at `origin` to `ONE`
/// at `target`; the displayed point eases out along the segment.
#[derive(Clone, Copy, PartialEq, Eq, Structural, Debug)]
pub struct Animate {
    pub t: i64,
    pub origin: Point,
    pub target: Point,
}

pub open spec fn pow4(x: int) -> int {
    x * x * x * x
}

/// The quartic ease-out curve on raw progress ticks: fast start, slow finish,
/// 0 at 0 and `ONE` at `ONE`.
pub open spec fn ease_spec(t: int) -> int {
    ONE - pow4(ONE - t) / (ONE * ONE * ONE)
}

/// Linear interpolation of one coordinate at easing fraction `e` of `ONE`,
/// rounding toward the origin.
pub open spec fn lerp_spec(o: int, tg: int, e: int) -> int {
    if tg >= o {
        o + (tg - o) * e / (ONE as int)
    } else {
        o - (o - tg) * e / (ONE as int)
    }
}

/// Progress clamped to the animation's range.
pub open spec fn clamp_spec(x: int) -> int {
    if x < 0 {
        0
    } else if x > ONE {
        ONE as int
    } else {
        x
    }
}

impl Animate {
    pub open spec fn wf(self) -> bool {
        &&& 0 <= self.t <= ONE
        &&& self.origin.wf()
        &&& self.target.wf()
    }

    /// The x coordinate currently displayed.
    pub open spec fn point_x(self) -> int {
        lerp_spec(self.origin.x as int, self.target.x as int, ease_spec(self.t as int))
    }

    /// The y coordinate currently displayed.
    pub open spec fn point_y(self) -> int {
        lerp_spec(self.origin.y as int, self.target.y as int, ease_spec(self.t as int))
    }

    /// The state `advance` moves to: progress grows by `dt`, clamped; the
    /// segment itself is untouched.
    pub open spec fn advanced(self, dt: int) -> Animate {
        Animate { t: clamp_spec(self.t + dt) as i64, ..self }
    }

    /// The state after advancing through each step of `dts` in turn.
    pub open spec fn advanced_through(self, dts: Seq<int>) -> Animate
        decreases dts.len(),
    {
        if dts.len() == 0 {
            self
        } else {
            self.advanced(dts[0]).advanced_through(dts.drop_first())
        }
    }

    pub fn new(initial: Point) -> (r: Animate)
        requires
            initial.wf(),
        ensures
            r.wf(),
            r.t == ONE,
            r.origin == (Point { x: 0, y: 0 }),
            r.target == initial,
            r.point_x() == initial.x,
            r.point_y() == initial.y,
    {
        proof {
            lemma_ease_properties(ONE as int);
            lemma_lerp_properties(0, initial.x as int, ease_spec(ONE as int));
            lemma_lerp_properties(0, initial.y as int, ease_spec(ONE as int));
        }
        Animate { t: ONE, origin: Point { x: 0, y: 0 }, target: initial }
    }

    pub fn with_target(self, target: Point) -> (r: Animate)
        requires
            self.wf(),
            target.wf(),
        ensures
            r.wf(),
            r.t == 0,
            r.target == target,
            r.origin.x == self.point_x(),
            r.origin.y == self.point_y(),
            r.point_x() == self.point_x(),
            r.point_y() == self.point_y(),
    {
        let p = self.point();
        proof {
            lemma_ease_properties(0);
            lemma_lerp_properties(p.x as int, target.x as int, ease_spec(0));
            lemma_lerp_properties(p.y as int, target.y as int, ease_spec(0));
        }
        Animate { t: 0, origin: p, target }
    }

    pub fn point(self) -> (r: Point)
        requires
            self.wf(),
        ensures
            r.wf(),
            r.x == self.point_x(),
            r.y == self.point_y(),
    {
        let eased = ease_out_quart(self.t);
        let x = lerp(self.origin.x, self.target.x, eased);
        let y = lerp(self.origin.y, self.target.y, eased);
        Point { x, y }
    }

    pub fn advance(self, dt: i64) -> (r: Animate)
        requires
            self.wf(),
            dt <= i64::MAX - ONE,
        ensures
            r.wf(),
            r == self.advanced(dt as int),
            r.origin == self.origin,
            r.target == self.target,
            r.t == clamp_spec(self.t + dt),
    {
        let s = self.t + dt;
        let t = if s < 0 {
            0
        } else if s > ONE {
            ONE
        } else {
            s
        };
        Animate { t, ..self }
    }
}

/// Exact division of a non-negative value by a positive one.
fn div_pos(num: i64, den: i64) -> (r: i64)
    requires
        0 <= num,
        0 < den,
    ensures
        r == num as int / den as int,
{
    proof {
        lemma_div_pos_is_pos(num as int, den as int);
        vstd::arithmetic::div_mod::lemma_div_nonincreasing(num as int, den as int);
    }
    ((num as u64) / (den as u64)) as i64
}

/// The quartic ease-out curve on raw progress ticks.
fn ease_out_quart(t: i64) -> (r: i64)
    requires
        0 <= t <= ONE,
    ensures
        r == ease_spec(t as int),
        0 <= r <= ONE,
{
    proof {
        lemma_ease_properties(t as int);
    }
    let u = ONE - t;
    assert(u * u <= ONE * ONE) by (nonlinear_arith)
        requires
            0 <= u <= ONE,
    ;
    let u2 = u * u;
    assert(u2 * u2 <= (ONE * ONE) * (ONE * ONE)) by (nonlinear_arith)
        requires
            0 <= u2 <= ONE * ONE,
    ;
    let u4 = u2 * u2;
    assert(u4 == pow4(u as int)) by (nonlinear_arith)
        requires
            u2 == u * u,
            u4 == u2 * u2,
    ;
    let cube = ONE * ONE * ONE;
    ONE - div_pos(u4, cube)
}

/// Linear interpolation of one coordinate; the result never leaves the
/// interval between `o` and `tg`.
fn lerp(o: i64, tg: i64, e: i64) -> (r: i64)
    requires
        -COORD_MAX <= o <= COORD_MAX,
        -COORD_MAX <= tg <= COORD_MAX,
        0 <= e <= ONE,
    ensures
        r == lerp_spec(o as int, tg as int, e as int),
        -COORD_MAX <= r <= COORD_MAX,
{
    proof {
        lemma_lerp_properties(o as int, tg as int, e as int);
    }
    if tg >= o {
        let d = tg - o;
        assert(d * e <= d * ONE && 0 <= d * e) by (nonlinear_arith)
            requires
                0 <= d,
                0 <= e <= ONE,
        ;
        o + div_pos(d * e, ONE)
    } else {
        let d = o - tg;
        assert(d * e <= d * ONE && 0 <= d * e) by (nonlinear_arith)
            requires
                0 <= d,
                0 <= e <= ONE,
        ;
        o - div_pos(d * e, ONE)
    }
}

/// The easing curve stays within [0, ONE], vanishes at 0, reaches `ONE`
/// exactly at `ONE`, and is monotone in `t`.
pub proof fn lemma_ease_properties(t: int)
    requires
        0 <= t <= ONE,
    ensures
        0 <= ease_spec(t) <= ONE,
        t == 0 ==> ease_spec(t) == 0,
        t == ONE ==> ease_spec(t) == ONE,
{
    let u = ONE - t;
    let cube = (ONE * ONE * ONE) as int;
    assert(0 <= pow4(u) <= cube * ONE) by (nonlinear_arith)
        requires
            0 <= u <= ONE,
            cube == ONE * ONE * ONE,
    ;
    lemma_div_pos_is_pos(pow4(u), cube);
    lemma_div_is_ordered(pow4(u), cube * ONE, cube);
    lemma_div_multiples_vanish(ONE as int, cube);
    if t == 0 {
        assert(pow4(u) == cube * ONE) by (nonlinear_arith)
            requires
                u == ONE,
                cube == ONE * ONE * ONE,
        ;
    }
    if t == ONE {
        assert(pow4(0int) == 0) by (nonlinear_arith);
        vstd::arithmetic::div_mod::lemma_div_of0(cube);
    }
}

/// Monotonicity of the easing curve in `t`.
pub proof fn lemma_ease_monotone(t1: int, t2: int)
    requires
        0 <= t1 <= t2 <= ONE,
    ensures
        ease_spec(t1) <= ease_spec(t2),
{
    let u1 = ONE - t1;
    let u2 = ONE - t2;
    let cube = (ONE * ONE * ONE) as int;
    assert(pow4(u2) <= pow4(u1)) by (nonlinear_arith)
        requires
            0 <= u2 <= u1,
    ;
    lemma_div_is_ordered(pow4(u2), pow4(u1), cube);
}

/// Interpolation stays between its endpoints, hits them exactly at the
/// boundary fractions, and is monotone in the fraction.
pub proof fn lemma_lerp_properties(o: int, tg: int, e: int)
    requires
        0 <= e <= ONE,
    ensures
        o <= tg ==> o <= lerp_spec(o, tg, e) <= tg,
        tg <= o ==> tg <= lerp_spec(o, tg, e) <= o,
        e == 0 ==> lerp_spec(o, tg, e) == o,
        e == ONE ==> lerp_spec(o, tg, e) == tg,
{
    if tg >= o {
        let d = tg - o;
        assert(0 <= d * e <= d * ONE) by (nonlinear_arith)
            requires
                0 <= d,
                0 <= e <= ONE,
        ;
        lemma_div_pos_is_pos(d * e, ONE as int);
        lemma_div_is_ordered(d * e, d * ONE, ONE as int);
        lemma_div_multiples_vanish(d, ONE as int);
        if e == 0 {
            assert(d * 0 == 0) by (nonlinear_arith);
            vstd::arithmetic::div_mod::lemma_div_of0(ONE as int);
        }
    } else {
        let d = o - tg;
        assert(0 <= d * e <= d * ONE) by (nonlinear_arith)
            requires
                0 <= d,
                0 <= e <= ONE,
        ;
        lemma_div_pos_is_pos(d * e, ONE as int);
        lemma_div_is_ordered(d * e, d * ONE, ONE as int);
        lemma_div_multiples_vanish(d, ONE as int);
        if e == 0 {
            assert(d * 0 == 0) by (nonlinear_arith);
            vstd::arithmetic::div_mod::lemma_div_of0(ONE as int);
        }
    }
}

/// Monotonicity of interpolation in the fraction: raising `e` moves the
/// result from `o` toward `tg`, never past it.
pub proof fn lemma_lerp_monotone(o: int, tg: int, e1: int, e2: int)
    requires
        0 <= e1 <= e2 <= ONE,
    ensures
        o <= tg ==> lerp_spec(o, tg, e1) <= lerp_spec(o, tg, e2),
        tg <= o ==> lerp_spec(o, tg, e2) <= lerp_spec(o, tg, e1),
{
    if tg >= o {
        let d = tg - o;
        assert(d * e1 <= d * e2) by (nonlinear_arith)
            requires
                0 <= d,
                e1 <= e2,
        ;
        lemma_div_is_ordered(d * e1, d * e2, ONE as int);
    }
    if tg <= o {
        let d = o - tg;
        assert(d * e1 <= d * e2) by (nonlinear_arith)
            requires
                0 <= d,
                e1 <= e2,
        ;
        lemma_div_is_ordered(d * e1, d * e2, ONE as int);
    }
}

/// For a fixed segment, the displayed point is a monotone function of the
/// progress `t`: it moves from the origin toward the target, coordinate by
/// coordinate, and stands exactly on the origin at `t == 0` and exactly on
/// the target at `t == ONE`.
pub proof fn lemma_evaluate_monotone(a: Animate, b: Animate)
    requires
        a.wf(),
        b.wf(),
        a.origin == b.origin,
        a.target == b.target,
        a.t <= b.t,
    ensures
        a.origin.x <= a.target.x ==> a.point_x() <= b.point_x(),
        a.target.x <= a.origin.x ==> b.point_x() <= a.point_x(),
        a.origin.y <= a.target.y ==> a.point_y() <= b.point_y(),
        a.target.y <= a.origin.y ==> b.point_y() <= a.point_y(),
        a.t == 0 ==> a.point_x() == a.origin.x && a.point_y() == a.origin.y,
        b.t == ONE ==> b.point_x() == b.target.x && b.point_y() == b.target.y,
{
    lemma_ease_properties(a.t as int);
    lemma_ease_properties(b.t as int);
    lemma_ease_monotone(a.t as int, b.t as int);
    lemma_lerp_monotone(a.origin.x as int, a.target.x as int, ease_spec(a.t as int), ease_spec(b.t as int));
    lemma_lerp_monotone(a.origin.y as int, a.target.y as int, ease_spec(a.t as int), ease_spec(b.t as int));
    lemma_lerp_properties(a.origin.x as int, a.target.x as int, ease_spec(a.t as int));
    lemma_lerp_properties(a.origin.y as int, a.target.y as int, ease_spec(a.t as int));
    lemma_lerp_properties(b.origin.x as int, b.target.x as int, ease_spec(b.t as int));
    lemma_lerp_properties(b.origin.y as int, b.target.y as int, ease_spec(b.t as int));
}

/// The displayed point never leaves the axis-aligned box spanned by the
/// segment's origin and target.
pub proof fn lemma_evaluate_between(a: Animate)
    requires
        a.wf(),
    ensures
        a.origin.x <= a.target.x ==> a.origin.x <= a.point_x() <= a.target.x,
        a.target.x <= a.origin.x ==> a.target.x <= a.point_x() <= a.origin.x,
        a.origin.y <= a.target.y ==> a.origin.y <= a.point_y() <= a.target.y,
        a.target.y <= a.origin.y ==> a.target.y <= a.point_y() <= a.origin.y,
{
    lemma_ease_properties(a.t as int);
    lemma_lerp_properties(a.origin.x as int, a.target.x as int, ease_spec(a.t as int));
    lemma_lerp_properties(a.origin.y as int, a.target.y as int, ease_spec(a.t as int));
}

/// Once the animation has finished (`t == ONE`), any further non-negative
/// advance leaves the state, and so the displayed point, unchanged; that
/// point is exactly the target.
pub proof fn lemma_advance_at_rest(a: Animate, dt: int)
    requires
        a.wf(),
        a.t == ONE,
        dt >= 0,
    ensures
        a.advanced(dt) == a,
        a.point_x() == a.target.x,
        a.point_y() == a.target.y,
{
    lemma_ease_properties(ONE as int);
    lemma_lerp_properties(a.origin.x as int, a.target.x as int, ease_spec(ONE as int));
    lemma_lerp_properties(a.origin.y as int, a.target.y as int, ease_spec(ONE as int));
}

/// Total of a sequence of time steps.
pub open spec fn total_of(dts: Seq<int>) -> int
    decreases dts.len(),
{
    if dts.len() == 0 {
        0
    } else {
        dts[0] + total_of(dts.drop_first())
    }
}

proof fn lemma_total_nonneg(dts: Seq<int>)
    requires
        forall|i: int| 0 <= i < dts.len() ==> dts[i] >= 0,
    ensures
        total_of(dts) >= 0,
    decreases dts.len(),
{
    if dts.len() > 0 {
        assert forall|i: int| 0 <= i < dts.drop_first().len() implies dts.drop_first()[i] >= 0 by {
            assert(dts.drop_first()[i] == dts[i + 1]);
        }
        lemma_total_nonneg(dts.drop_first());
    }
}

/// However the elapsed time is split into non-negative steps, once the
/// steps sum to a full duration past the current progress, the animation
/// has settled: the progress stands exactly at `ONE` and the displayed
/// point exactly on the target.
pub proof fn lemma_advance_sequence_settles(a: Animate, dts: Seq<int>)
    requires
        a.wf(),
        forall|i: int| 0 <= i < dts.len() ==> dts[i] >= 0,
        a.t + total_of(dts) >= ONE,
    ensures
        a.advanced_through(dts) == (Animate { t: ONE, origin: a.origin, target: a.target }),
        a.advanced_through(dts).point_x() == a.target.x,
        a.advanced_through(dts).point_y() == a.target.y,
    decreases dts.len(),
{
    if dts.len() == 0 {
        lemma_advance_at_rest(a, 0);
    } else {
        let b = a.advanced(dts[0]);
        assert forall|i: int| 0 <= i < dts.drop_first().len() implies dts.drop_first()[i] >= 0 by {
            assert(dts.drop_first()[i] == dts[i + 1]);
        }
        if a.t + dts[0] >= ONE {
            lemma_total_nonneg(dts.drop_first());
        }
        lemma_advance_sequence_settles(b, dts.drop_first());
    }
}

} // verus!
