//! The ray-march intersection solver.
//!
//! Each lane of a batch marches independently along its ray, using the
//! scene's signed distance as a step-size oracle. Per lane the state is
//! one of: still marching, hit (the relative-epsilon test passed),
//! escaped (travelled past [`MAX_DIST`]) or exhausted (took
//! [`MAX_ITERS`] steps). All lanes advance together every iteration;
//! termination is mask-driven, never per-lane control flow.

use vstd::prelude::*;

use crate::math::lanes::{lane_abs, lane_add, lane_bits, lane_lt, lane_mul, splat_ratio};
use crate::math::lanes::f32s;
use crate::ray::Ray;
use crate::{Sdf, LANES};

verus! {

/// The maximum distance that a ray can travel before its lane counts as
/// escaped.
pub const MAX_DIST: u32 = 1000;

/// The maximum amount of steps that the algorithm can take in one lane.
pub const MAX_ITERS: u32 = 1000;

/// Numerator of the relative hit-test epsilon.
const EP_NUM: i32 = 1;

/// Denominator of the relative hit-test epsilon: the test threshold is
/// one millionth of the distance travelled so far.
const EP_DEN: i32 = 1000000;

/// Trace information for ray marching: per lane, the distance
/// travelled, the number of iterations taken, and whether the lane hit
/// a surface.
pub struct Trace {
    dist: f32s,
    steps: Vec<u32>,
    hit: Vec<bool>,
}

impl Trace {
    /// The per-lane travelled distances.
    pub closed spec fn spec_dist(&self) -> f32s {
        self.dist
    }

    /// The per-lane step counts.
    pub closed spec fn spec_steps(&self) -> Seq<u32> {
        self.steps@
    }

    /// The per-lane hit flags.
    pub closed spec fn spec_hit(&self) -> Seq<bool> {
        self.hit@
    }

    /// A trace is well formed when it carries one entry per lane.
    pub open spec fn wf(&self) -> bool {
        &&& self.spec_steps().len() == LANES
        &&& self.spec_hit().len() == LANES
    }

    /// Get the mask of the rays that hit, one flag per lane.
    pub fn hit(&self) -> (r: Vec<bool>)
        ensures
            r@ == self.spec_hit(),
    {
        let mut r: Vec<bool> = Vec::new();
        let mut l: usize = 0;
        while l < self.hit.len()
            invariant
                l <= self.hit@.len(),
                r@ =~= self.hit@.subrange(0, l as int),
            decreases self.hit@.len() - l,
        {
            r.push(self.hit[l]);
            l = l + 1;
        }
        proof {
            assert(r@ =~= self.hit@);
        }
        r
    }

    /// Get the distances that each ray travelled.
    pub fn distances(&self) -> (r: f32s)
        ensures
            r == self.spec_dist(),
    {
        self.dist
    }

    /// Get the number of march iterations each lane took.
    pub fn steps(&self) -> (r: Vec<u32>)
        ensures
            r@ == self.spec_steps(),
    {
        let mut r: Vec<u32> = Vec::new();
        let mut l: usize = 0;
        while l < self.steps.len()
            invariant
                l <= self.steps@.len(),
                r@ =~= self.steps@.subrange(0, l as int),
            decreases self.steps@.len() - l,
        {
            r.push(self.steps[l]);
            l = l + 1;
        }
        proof {
            assert(r@ =~= self.steps@);
        }
        r
    }
}

/// The total step budget left over all lanes: how far the step counters
/// are, summed, from [`MAX_ITERS`].
spec fn budget(steps: Seq<u32>) -> int
    decreases steps.len(),
{
    if steps.len() == 0 {
        0
    } else {
        (MAX_ITERS - steps[0]) + budget(steps.drop_first())
    }
}

proof fn lemma_budget_nonneg(s: Seq<u32>)
    requires
        forall|i: int| 0 <= i < s.len() ==> #[trigger] s[i] <= MAX_ITERS,
    ensures
        budget(s) >= 0,
    decreases s.len(),
{
    if s.len() > 0 {
        assert(forall|i: int|
            0 <= i < s.drop_first().len() ==> #[trigger] s.drop_first()[i] <= MAX_ITERS);
        lemma_budget_nonneg(s.drop_first());
    }
}

proof fn lemma_budget_mono(s1: Seq<u32>, s2: Seq<u32>)
    requires
        s1.len() == s2.len(),
        forall|i: int| 0 <= i < s1.len() ==> s1[i] <= #[trigger] s2[i],
    ensures
        budget(s2) <= budget(s1),
    decreases s1.len(),
{
    if s1.len() > 0 {
        assert(forall|i: int|
            0 <= i < s1.drop_first().len() ==> s1.drop_first()[i] <= #[trigger] s2.drop_first()[i]);
        lemma_budget_mono(s1.drop_first(), s2.drop_first());
    }
}

proof fn lemma_budget_dec(s1: Seq<u32>, s2: Seq<u32>, w: int)
    requires
        s1.len() == s2.len(),
        forall|i: int| 0 <= i < s1.len() ==> s1[i] <= #[trigger] s2[i],
        0 <= w < s1.len(),
        s2[w] == s1[w] + 1,
    ensures
        budget(s2) < budget(s1),
    decreases s1.len(),
{
    if w == 0 {
        lemma_budget_mono(s1.drop_first(), s2.drop_first());
    } else {
        assert(forall|i: int|
            0 <= i < s1.drop_first().len() ==> s1.drop_first()[i] <= #[trigger] s2.drop_first()[i]);
        lemma_budget_dec(s1.drop_first(), s2.drop_first(), w - 1);
    }
}

/// A vector holding `val` once per lane.
fn repeat_u32(val: u32) -> (v: Vec<u32>)
    ensures
        v@.len() == LANES,
        forall|i: int| 0 <= i < LANES ==> v@[i] == val,
{
    let mut v: Vec<u32> = Vec::new();
    let mut l: usize = 0;
    while l < LANES
        invariant
            l <= LANES,
            v@.len() == l,
            forall|i: int| 0 <= i < l ==> v@[i] == val,
        decreases LANES - l,
    {
        v.push(val);
        l = l + 1;
    }
    v
}

/// Unpacks the low [`LANES`] bits of a lane bitmask into one flag per
/// lane: flag `i` is set exactly when bit `i` of the mask is.
fn mask_flags(m: u32) -> (v: Vec<bool>)
    ensures
        v@.len() == LANES,
        forall|i: u32| i < 16 ==> #[trigger] v@[i as int] == (((m >> i) & 1u32) == 1u32),
{
    let mut v: Vec<bool> = Vec::new();
    let mut l: u32 = 0;
    while l < 16
        invariant
            l <= 16,
            v@.len() == l,
            forall|i: u32| i < l ==> #[trigger] v@[i as int] == (((m >> i) & 1u32) == 1u32),
        decreases 16 - l,
    {
        v.push(((m >> l) & 1) == 1);
        l = l + 1;
    }
    v
}

/// True iff every lane's flag is set.
fn all_set(m: &Vec<bool>) -> (r: bool)
    ensures
        r == (forall|i: int| 0 <= i < m@.len() ==> m@[i]),
{
    let mut l: usize = 0;
    while l < m.len()
        invariant
            l <= m@.len(),
            forall|i: int| 0 <= i < l ==> m@[i],
        decreases m@.len() - l,
    {
        if !m[l] {
            return false;
        }
        l = l + 1;
    }
    true
}

/// The lanes whose step counter has reached [`MAX_ITERS`].
fn exhausted_mask(steps: &Vec<u32>) -> (r: Vec<bool>)
    ensures
        r@.len() == steps@.len(),
        forall|i: int| 0 <= i < steps@.len() ==> r@[i] == (steps@[i] == MAX_ITERS),
{
    let mut r: Vec<bool> = Vec::new();
    let mut l: usize = 0;
    while l < steps.len()
        invariant
            l <= steps@.len(),
            r@.len() == l,
            forall|i: int| 0 <= i < l ==> r@[i] == (steps@[i] == MAX_ITERS),
        decreases steps@.len() - l,
    {
        r.push(steps[l] == MAX_ITERS);
        l = l + 1;
    }
    r
}

/// The elementwise disjunction of three lane masks.
fn or3(a: &Vec<bool>, b: &Vec<bool>, c: &Vec<bool>) -> (r: Vec<bool>)
    requires
        a@.len() == b@.len(),
        a@.len() == c@.len(),
    ensures
        r@.len() == a@.len(),
        forall|i: int| 0 <= i < a@.len() ==> r@[i] == (a@[i] || b@[i] || c@[i]),
{
    let mut r: Vec<bool> = Vec::new();
    let mut l: usize = 0;
    while l < a.len()
        invariant
            l <= a@.len(),
            a@.len() == b@.len(),
            a@.len() == c@.len(),
            r@.len() == l,
            forall|i: int| 0 <= i < l ==> r@[i] == (a@[i] || b@[i] || c@[i]),
        decreases a@.len() - l,
    {
        r.push(a[l] || b[l] || c[l]);
        l = l + 1;
    }
    r
}

/// The branchless per-lane step increment: a finished lane's counter is
/// frozen at its current value, every other lane's counter advances by
/// exactly one.
fn masked_inc(steps: &Vec<u32>, finished: &Vec<bool>) -> (r: Vec<u32>)
    requires
        steps@.len() == finished@.len(),
        forall|i: int| 0 <= i < steps@.len() && !finished@[i] ==> steps@[i] < MAX_ITERS,
    ensures
        r@.len() == steps@.len(),
        forall|i: int| 0 <= i < steps@.len() && finished@[i] ==> r@[i] == steps@[i],
        forall|i: int| 0 <= i < steps@.len() && !finished@[i] ==> r@[i] == steps@[i] + 1,
{
    let mut r: Vec<u32> = Vec::new();
    let mut l: usize = 0;
    while l < steps.len()
        invariant
            l <= steps@.len(),
            steps@.len() == finished@.len(),
            forall|i: int| 0 <= i < steps@.len() && !finished@[i] ==> steps@[i] < MAX_ITERS,
            r@.len() == l,
            forall|i: int| 0 <= i < l && finished@[i] ==> r@[i] == steps@[i],
            forall|i: int| 0 <= i < l && !finished@[i] ==> r@[i] == steps@[i] + 1,
        decreases steps@.len() - l,
    {
        let inc: u32 = if finished[l] {
            0
        } else {
            1
        };
        r.push(steps[l] + inc);
        l = l + 1;
    }
    r
}

/// Ray marches the `scene` and returns a trace.
///
/// Every iteration evaluates the scene's distance at each lane's
/// current position, recomputes the hit mask with the relative-epsilon
/// test (a lane hits when the reported step falls below one millionth
/// of its travelled distance), steps every lane forward by its reported
/// distance, and advances the step counter of exactly the lanes that
/// are not yet finished. The loop ends as soon as every lane has hit,
/// or every lane is finished (hit, escaped past [`MAX_DIST`], or
/// exhausted after [`MAX_ITERS`] iterations); no lane's counter ever
/// passes [`MAX_ITERS`].
pub fn march<S: Sdf>(scene: &S, ray: &Ray) -> (t: Trace)
    ensures
        t.wf(),
        forall|i: int| 0 <= i < LANES ==> t.spec_steps()[i] <= MAX_ITERS,
{
    let eps = splat_ratio(EP_NUM, EP_DEN);
    let max_d = splat_ratio(1000, 1);
    let mut dist = splat_ratio(0, 1);
    let mut steps: Vec<u32> = repeat_u32(0);
    let mut hit: Vec<bool> = mask_flags(0);
    loop
        invariant
            steps@.len() == LANES,
            hit@.len() == LANES,
            forall|i: int| 0 <= i < LANES ==> steps@[i] <= MAX_ITERS,
        ensures
            steps@.len() == LANES,
            hit@.len() == LANES,
            forall|i: int| 0 <= i < LANES ==> steps@[i] <= MAX_ITERS,
        decreases budget(steps@),
    {
        // get the step size
        let step = scene.dist(&ray.at(dist));
        // find lanes that hit something
        hit = mask_flags(lane_bits(lane_lt(step, lane_mul(eps, lane_abs(dist)))));
        // break early if all rays have hit
        if all_set(&hit) {
            break ;
        }
        // step forward in the march; hit lanes move too, but by
        // converged, negligible amounts
        dist = lane_add(dist, step);
        // find the lanes that have finished marching
        let escaped = mask_flags(lane_bits(lane_lt(max_d, dist)));
        let exhausted = exhausted_mask(&steps);
        let finished = or3(&hit, &escaped, &exhausted);
        // increment the iter count for the rays that remain
        let stepped = masked_inc(&steps, &finished);
        let done = all_set(&finished);
        proof {
            if !done {
                let w = choose|i: int| 0 <= i < finished@.len() && !finished@[i];
                lemma_budget_dec(steps@, stepped@, w);
                lemma_budget_nonneg(stepped@);
            }
        }
        steps = stepped;
        // if none can iter any further, stop looping
        if done {
            break ;
        }
    }
    Trace { dist, steps, hit }
}

} // verus!
