//! The scene: an ordered collection of shapes and its nearest-hit search.

use crate::hit_record::{HitRecord, Hittable};
use crate::ray::Ray;
use crate::scalar::Scalar;
use vstd::prelude::*;

verus! {

/// The shapes of a scene in the order they were added. Shapes are added
/// while the scene is built and only read while it is rendered.
pub struct World<H> {
    pub shapes: Vec<H>,
}

/// The upper bound that a search holds once it has `found`: the parameter of
/// the hit, or `t_max` while nothing was hit.
pub open spec fn closest_so_far<S: Scalar>(found: Option<HitRecord<'_, S>>, t_max: S) -> S {
    match found {
        Some(rec) => rec.t,
        None => t_max,
    }
}

/// The outcome of asking `shapes` one after the other. Each shape is asked
/// for a hit below the closest parameter found before it, and its answer
/// replaces the earlier one where it is strictly closer.
pub open spec fn hit_among<'a, S: Scalar, H: Hittable<S>>(
    shapes: Seq<H>,
    ray: Ray<S>,
    t_min: S,
    t_max: S,
) -> Option<HitRecord<'a, S>>
    decreases shapes.len(),
{
    if shapes.len() == 0 {
        None
    } else {
        let before = hit_among(shapes.drop_last(), ray, t_min, t_max);
        let bound = closest_so_far(before, t_max);
        match shapes.last().hit_spec(ray, t_min, bound) {
            Some(rec) if rec.t.lt_spec(bound) => Some(rec),
            _ => before,
        }
    }
}

impl<H> World<H> {
    pub open spec fn hit_spec<S: Scalar>(&self, ray: Ray<S>, t_min: S, t_max: S) -> Option<
        HitRecord<'_, S>,
    > where H: Hittable<S> {
        hit_among(self.shapes@, ray, t_min, t_max)
    }

    /// An empty scene.
    pub fn new() -> (r: Self)
        ensures
            r.shapes@.len() == 0,
    {
        World { shapes: Vec::new() }
    }

    /// Adds `shape` behind the shapes that are there.
    pub fn push(&mut self, shape: H)
        ensures
            final(self).shapes@ == old(self).shapes@.push(shape),
    {
        self.shapes.push(shape);
    }

    /// The number of shapes.
    pub fn len(&self) -> (r: usize)
        ensures
            r == self.shapes@.len(),
    {
        self.shapes.len()
    }

    /// The nearest meeting of `ray` with any shape, with its parameter
    /// strictly between `t_min` and `t_max`.
    ///
    /// No shape has a hit in that range that is strictly nearer than the one
    /// returned, and where nothing is returned no shape has a hit below
    /// `t_max`.
    pub fn hit<S: Scalar>(&self, ray: Ray<S>, t_min: S, t_max: S) -> (r: Option<HitRecord<'_, S>>) where
        H: Hittable<S>,

        ensures
            r == self.hit_spec(ray, t_min, t_max),
            forall|j: int|
                0 <= j < self.shapes@.len() ==> nothing_nearer(
                    #[trigger] self.shapes@[j],
                    ray,
                    t_min,
                    t_max,
                    closest_so_far(r, t_max),
                ),
    {
        let mut tmp_rec: Option<HitRecord<'_, S>> = None;
        let mut closest = t_max;

        let mut i: usize = 0;
        while i < self.shapes.len()
            invariant
                0 <= i <= self.shapes@.len(),
                tmp_rec == hit_among(self.shapes@.take(i as int), ray, t_min, t_max),
                closest == closest_so_far(tmp_rec, t_max),
            decreases self.shapes@.len() - i,
        {
            proof {
                assert(self.shapes@.take(i + 1).drop_last() =~= self.shapes@.take(i as int));
            }
            if let Some(rec) = self.shapes[i].hit(ray, t_min, closest) {
                if rec.t.lt(closest) {
                    closest = rec.t;
                    tmp_rec = Some(rec);
                }
            }
            i += 1;
        }
        proof {
            assert(self.shapes@.take(i as int) =~= self.shapes@);
            lemma_hit_among_nearest(self.shapes@, ray, t_min, t_max);
        }
        tmp_rec
    }
}

/// `shape` has no hit between `t_min` and `t_max` that is strictly nearer
/// than `closest`.
pub open spec fn nothing_nearer<S: Scalar, H: Hittable<S>>(
    shape: H,
    ray: Ray<S>,
    t_min: S,
    t_max: S,
    closest: S,
) -> bool {
    match shape.hit_spec(ray, t_min, t_max) {
        Some(rec) => !rec.t.lt_spec(closest),
        None => true,
    }
}

/// The bound a search ends with is `t_max` itself or strictly below it.
pub proof fn lemma_hit_among_below_max<S: Scalar, H: Hittable<S>>(
    shapes: Seq<H>,
    ray: Ray<S>,
    t_min: S,
    t_max: S,
)
    ensures
        match hit_among(shapes, ray, t_min, t_max) {
            Some(rec) => rec.t.lt_spec(t_max),
            None => true,
        },
    decreases shapes.len(),
{
    if shapes.len() > 0 {
        lemma_hit_among_below_max(shapes.drop_last(), ray, t_min, t_max);
        let before = hit_among(shapes.drop_last(), ray, t_min, t_max);
        let bound = closest_so_far(before, t_max);
        match shapes.last().hit_spec(ray, t_min, bound) {
            Some(rec) => {
                if rec.t.lt_spec(bound) && before is Some {
                    S::law_lt_transitive(rec.t, bound, t_max);
                }
            },
            None => {},
        }
    }
}

/// The search returns the globally nearest hit: no shape, wherever it stands
/// in the sequence, has a hit in the range that is strictly nearer.
pub proof fn lemma_hit_among_nearest<S: Scalar, H: Hittable<S>>(
    shapes: Seq<H>,
    ray: Ray<S>,
    t_min: S,
    t_max: S,
)
    ensures
        forall|j: int|
            0 <= j < shapes.len() ==> nothing_nearer(
                #[trigger] shapes[j],
                ray,
                t_min,
                t_max,
                closest_so_far(hit_among(shapes, ray, t_min, t_max), t_max),
            ),
    decreases shapes.len(),
{
    if shapes.len() > 0 {
        let front = shapes.drop_last();
        let last = shapes.last();
        lemma_hit_among_nearest(front, ray, t_min, t_max);
        lemma_hit_among_below_max(front, ray, t_min, t_max);
        let before = hit_among(front, ray, t_min, t_max);
        let bound = closest_so_far(before, t_max);
        let after = closest_so_far(hit_among(shapes, ray, t_min, t_max), t_max);
        let answer = last.hit_spec(ray, t_min, bound);
        let accepted = answer is Some && answer->0.t.lt_spec(bound);
        assert(accepted ==> after == answer->0.t);
        assert(!accepted ==> after == bound);

        assert forall|j: int| 0 <= j < shapes.len() implies nothing_nearer(
            #[trigger] shapes[j],
            ray,
            t_min,
            t_max,
            after,
        ) by {
            let full = shapes[j].hit_spec(ray, t_min, t_max);
            if full is Some && full->0.t.lt_spec(after) {
                let c = full->0.t;
                if accepted {
                    S::law_lt_transitive(c, after, bound);
                }
                assert(c.lt_spec(bound));
                if j < front.len() {
                    assert(shapes[j] == front[j]);
                    assert(nothing_nearer(front[j], ray, t_min, t_max, bound));
                } else {
                    assert(shapes[j] == last);
                    if before is Some {
                        S::law_lt_implies_le(bound, t_max);
                        last.law_hit_narrowing(ray, t_min, t_max, bound);
                    }
                    assert(answer == full);
                    S::law_lt_irreflexive(c);
                }
            }
        }
    }
}

/// Raising the upper bound from a lower one to `t_max` does not push the
/// answer of `shape` away: a hit strictly below the lower bound is still the
/// answer for `t_max`, or the answer for `t_max` is strictly nearer.
pub open spec fn answers_widen<S: Scalar, H: Hittable<S>>(
    shape: H,
    ray: Ray<S>,
    t_min: S,
    t_max: S,
) -> bool {
    forall|bound: S|
        bound.lt_spec(t_max) ==> match #[trigger] shape.hit_spec(ray, t_min, bound) {
            Some(rec) => rec.t.lt_spec(bound) ==> match shape.hit_spec(ray, t_min, t_max) {
                Some(full) => full == rec || full.t.lt_spec(rec.t),
                None => false,
            },
            None => true,
        }
}

/// What a search returns comes from one of its shapes: that shape's answer
/// for the whole range is the returned hit or a strictly nearer one.
pub proof fn lemma_hit_among_has_source<S: Scalar, H: Hittable<S>>(
    shapes: Seq<H>,
    ray: Ray<S>,
    t_min: S,
    t_max: S,
) -> (j: int)
    requires
        hit_among(shapes, ray, t_min, t_max) is Some,
        forall|i: int| 0 <= i < shapes.len() ==> answers_widen(#[trigger] shapes[i], ray, t_min, t_max),
    ensures
        0 <= j < shapes.len(),
        match shapes[j].hit_spec(ray, t_min, t_max) {
            Some(full) => {
                let rec = hit_among(shapes, ray, t_min, t_max)->0;
                full == rec || full.t.lt_spec(rec.t)
            },
            None => false,
        },
    decreases shapes.len(),
{
    let front = shapes.drop_last();
    let last = shapes.last();
    let before = hit_among(front, ray, t_min, t_max);
    let bound = closest_so_far(before, t_max);
    let answer = last.hit_spec(ray, t_min, bound);
    if answer is Some && answer->0.t.lt_spec(bound) {
        if before is Some {
            lemma_hit_among_below_max(front, ray, t_min, t_max);
            assert(answers_widen(shapes[shapes.len() - 1], ray, t_min, t_max));
        }
        shapes.len() - 1
    } else {
        assert forall|i: int| 0 <= i < front.len() implies answers_widen(
            #[trigger] front[i],
            ray,
            t_min,
            t_max,
        ) by {
            assert(front[i] == shapes[i]);
        }
        lemma_hit_among_has_source(front, ray, t_min, t_max)
    }
}

/// The nearest hit does not depend on the order of the shapes. For two
/// sequences that hold the same shapes, each of which satisfies
/// [`answers_widen`], either both searches find nothing or both find a hit,
/// and neither hit is strictly nearer than the other.
pub proof fn lemma_hit_order_independent<S: Scalar, H: Hittable<S>>(
    first: Seq<H>,
    second: Seq<H>,
    ray: Ray<S>,
    t_min: S,
    t_max: S,
)
    requires
        forall|i: int| 0 <= i < first.len() ==> second.contains(#[trigger] first[i]),
        forall|i: int| 0 <= i < second.len() ==> first.contains(#[trigger] second[i]),
        forall|i: int| 0 <= i < first.len() ==> answers_widen(#[trigger] first[i], ray, t_min, t_max),
    ensures
        hit_among(first, ray, t_min, t_max) is Some <==> hit_among(second, ray, t_min, t_max) is Some,
        hit_among(first, ray, t_min, t_max) is Some ==> {
            let a = hit_among(first, ray, t_min, t_max)->0;
            let b = hit_among(second, ray, t_min, t_max)->0;
            !a.t.lt_spec(b.t) && !b.t.lt_spec(a.t)
        },
{
    assert forall|i: int| 0 <= i < second.len() implies answers_widen(
        #[trigger] second[i],
        ray,
        t_min,
        t_max,
    ) by {
        let k = choose|k: int| 0 <= k < first.len() && first[k] == second[i];
        assert(answers_widen(first[k], ray, t_min, t_max));
    }
    lemma_found_is_not_beaten(first, second, ray, t_min, t_max);
    lemma_found_is_not_beaten(second, first, ray, t_min, t_max);
}

/// One half of [`lemma_hit_order_independent`]: a hit among `first` makes
/// the search among `second` find a hit that is not strictly farther.
proof fn lemma_found_is_not_beaten<S: Scalar, H: Hittable<S>>(
    first: Seq<H>,
    second: Seq<H>,
    ray: Ray<S>,
    t_min: S,
    t_max: S,
)
    requires
        forall|i: int| 0 <= i < first.len() ==> second.contains(#[trigger] first[i]),
        forall|i: int| 0 <= i < first.len() ==> answers_widen(#[trigger] first[i], ray, t_min, t_max),
    ensures
        hit_among(first, ray, t_min, t_max) is Some ==> {
            &&& hit_among(second, ray, t_min, t_max) is Some
            &&& !hit_among(first, ray, t_min, t_max)->0.t.lt_spec(
                hit_among(second, ray, t_min, t_max)->0.t,
            )
        },
{
    let a = hit_among(first, ray, t_min, t_max);
    let b = hit_among(second, ray, t_min, t_max);
    if a is Some {
        let j = lemma_hit_among_has_source(first, ray, t_min, t_max);
        let full = first[j].hit_spec(ray, t_min, t_max)->0;
        let k = choose|k: int| 0 <= k < second.len() && second[k] == first[j];
        lemma_hit_among_nearest(second, ray, t_min, t_max);
        lemma_hit_among_below_max(first, ray, t_min, t_max);
        let closest = closest_so_far(b, t_max);
        assert(nothing_nearer(second[k], ray, t_min, t_max, closest));
        assert(!full.t.lt_spec(closest));
        if full != a->0 {
            if b is None {
                S::law_lt_transitive(full.t, a->0.t, t_max);
            } else if a->0.t.lt_spec(b->0.t) {
                S::law_lt_transitive(full.t, a->0.t, b->0.t);
            }
        }
    }
}

} // verus!
