//! The benchmark's cubic Bézier curves over the fixed-point scalar.
//!
//! Reading the data files and driving the timed iterations is the
//! benchmark front end's job; the curve arithmetic lives here.

use vstd::prelude::*;

use crate::fixed_point::{parametric_fits, spec_parametric, trunc_div, FixedPoint};

verus! {

/// How many parameter steps the interpolation takes along each curve.
pub const PARM_STEPS: i32 = 10;

/// The raw word of the interpolation parameter at `step`: `step /
/// PARM_STEPS` in fixed point.
pub open spec fn spec_step_t(step: int) -> int {
    trunc_div(((step as i32) << 12i32) as int, PARM_STEPS as int)
}

/// A point of the plane, in fixed point.
#[derive(Clone, Copy, Debug, Default, PartialEq, Eq, Structural)]
pub struct Point {
    pub x: FixedPoint,
    pub y: FixedPoint,
}

impl Point {
    /// Translate by another point, coordinate-wise; the exact sums must fit
    /// their words.
    pub fn add_assign(&mut self, rhs: Point)
        requires
            i32::MIN <= old(self).x.raw() + rhs.x.raw() <= i32::MAX,
            i32::MIN <= old(self).y.raw() + rhs.y.raw() <= i32::MAX,
        ensures
            final(self).x.raw() == old(self).x.raw() + rhs.x.raw(),
            final(self).y.raw() == old(self).y.raw() + rhs.y.raw(),
    {
        self.x.add_assign(rhs.x);
        self.y.add_assign(rhs.y);
    }
}

/// One cubic Bézier curve: two endpoints and two control points.
#[derive(Clone, Copy, Debug, Default, PartialEq, Eq, Structural)]
pub struct Curve {
    /// First endpoint.
    pub p1: Point,
    /// First control point.
    pub c1: Point,
    /// Second control point.
    pub c2: Point,
    /// Second endpoint.
    pub p2: Point,
}

impl Curve {
    /// Every intermediate of evaluating this curve at `t` fits its word, on
    /// both coordinates.
    pub open spec fn fits_at(self, t: FixedPoint) -> bool {
        &&& parametric_fits(t.raw(), self.p1.x.raw(), self.c1.x.raw(), self.c2.x.raw(),
        self.p2.x.raw())
        &&& parametric_fits(t.raw(), self.p1.y.raw(), self.c1.y.raw(), self.c2.y.raw(),
        self.p2.y.raw())
    }

    /// The curve's point at parameter `t`: the Bézier polynomial evaluated
    /// coordinate-wise.
    pub fn parametric(&self, t: FixedPoint) -> (r: Point)
        requires
            self.fits_at(t),
        ensures
            r.x.raw() == spec_parametric(t.raw(), self.p1.x.raw(), self.c1.x.raw(),
            self.c2.x.raw(), self.p2.x.raw()),
            r.y.raw() == spec_parametric(t.raw(), self.p1.y.raw(), self.c1.y.raw(),
            self.c2.y.raw(), self.p2.y.raw()),
    {
        Point {
            x: FixedPoint::parametric(t, self.p1.x, self.c1.x, self.c2.x, self.p2.x),
            y: FixedPoint::parametric(t, self.p1.y, self.c1.y, self.c2.y, self.p2.y),
        }
    }
}

/// The x coordinate's raw word after summing the curve's points at the
/// first `steps` interpolation parameters.
pub open spec fn spec_accum_x(curve: Curve, steps: nat) -> int
    decreases steps,
{
    if steps == 0 {
        0
    } else {
        spec_accum_x(curve, (steps - 1) as nat) + spec_parametric(
            spec_step_t(steps - 1),
            curve.p1.x.raw(),
            curve.c1.x.raw(),
            curve.c2.x.raw(),
            curve.p2.x.raw(),
        )
    }
}

/// The y coordinate's raw word after summing the curve's points at the
/// first `steps` interpolation parameters.
pub open spec fn spec_accum_y(curve: Curve, steps: nat) -> int
    decreases steps,
{
    if steps == 0 {
        0
    } else {
        spec_accum_y(curve, (steps - 1) as nat) + spec_parametric(
            spec_step_t(steps - 1),
            curve.p1.y.raw(),
            curve.c1.y.raw(),
            curve.c2.y.raw(),
            curve.p2.y.raw(),
        )
    }
}

/// Interpolating this curve stays within the 32-bit words: the evaluation
/// fits at every parameter step, and so does every partial sum.
pub open spec fn interpolate_fits(curve: Curve) -> bool {
    forall|k: int|
        0 <= k < PARM_STEPS ==> {
            &&& parametric_fits(
                #[trigger] spec_step_t(k),
                curve.p1.x.raw(),
                curve.c1.x.raw(),
                curve.c2.x.raw(),
                curve.p2.x.raw(),
            )
            &&& parametric_fits(
                spec_step_t(k),
                curve.p1.y.raw(),
                curve.c1.y.raw(),
                curve.c2.y.raw(),
                curve.p2.y.raw(),
            )
            &&& i32::MIN <= spec_accum_x(curve, (k + 1) as nat) <= i32::MAX
            &&& i32::MIN <= spec_accum_y(curve, (k + 1) as nat) <= i32::MAX
        }
}

/// Evaluate every curve at the fixed parameter steps and accumulate the
/// points, one output slot per curve — the benchmark's inner workload.
pub fn interpolate_points(curves: &Vec<Curve>, interpolate_test: &mut Vec<Point>)
    requires
        curves@.len() == old(interpolate_test)@.len(),
        forall|i: int| 0 <= i < curves@.len() ==> interpolate_fits(#[trigger] curves@[i]),
    ensures
        final(interpolate_test)@.len() == curves@.len(),
        forall|i: int|
            0 <= i < curves@.len() ==> (#[trigger] final(interpolate_test)@[i]).x.raw()
                == spec_accum_x(curves@[i], PARM_STEPS as nat)
                && final(interpolate_test)@[i].y.raw() == spec_accum_y(
                curves@[i],
                PARM_STEPS as nat,
            ),
{
    let n = curves.len();
    let mut i: usize = 0;
    while i < n
        invariant
            n == curves@.len(),
            interpolate_test@.len() == n,
            i <= n,
            forall|j: int| 0 <= j < n ==> interpolate_fits(#[trigger] curves@[j]),
            forall|j: int|
                0 <= j < i ==> (#[trigger] interpolate_test@[j]).x.raw() == spec_accum_x(
                    curves@[j],
                    PARM_STEPS as nat,
                ) && interpolate_test@[j].y.raw() == spec_accum_y(
                    curves@[j],
                    PARM_STEPS as nat,
                ),
        decreases n - i,
    {
        let curve = curves[i];
        let mut accumulated = Point { x: FixedPoint::new(0), y: FixedPoint::new(0) };

        let mut step: i32 = 0;
        while step < PARM_STEPS
            invariant
                0 <= step <= PARM_STEPS,
                interpolate_fits(curve),
                accumulated.x.raw() == spec_accum_x(curve, step as nat),
                accumulated.y.raw() == spec_accum_y(curve, step as nat),
            decreases PARM_STEPS - step,
        {
            let t = FixedPoint::from_step(step, PARM_STEPS);
            proof {
                assert(t.raw() == spec_step_t(step as int));
            }
            let point = curve.parametric(t);
            proof {
                assert(spec_accum_x(curve, (step + 1) as nat) == spec_accum_x(
                    curve,
                    step as nat,
                ) + spec_parametric(
                    spec_step_t(step as int),
                    curve.p1.x.raw(),
                    curve.c1.x.raw(),
                    curve.c2.x.raw(),
                    curve.p2.x.raw(),
                ));
                assert(spec_accum_y(curve, (step + 1) as nat) == spec_accum_y(
                    curve,
                    step as nat,
                ) + spec_parametric(
                    spec_step_t(step as int),
                    curve.p1.y.raw(),
                    curve.c1.y.raw(),
                    curve.c2.y.raw(),
                    curve.p2.y.raw(),
                ));
            }
            accumulated.add_assign(point);
            step = step + 1;
        }

        interpolate_test[i] = accumulated;
        i = i + 1;
    }
}

} // verus!
