//! Intersections: a parametric distance `t` paired with the index of the
//! shape hit, lists of them kept sorted ascending by `t`, and the selection
//! of the visible hit.

use vstd::prelude::*;
use crate::color::Color;
use crate::fx::fx_add;
use crate::fx::fx_add_i;
use crate::fx::fx_div;
use crate::fx::fx_div_i;
use crate::fx::fx_mul;
use crate::fx::fx_mul_i;
use crate::fx::fx_powi;
use crate::fx::fx_powi_i;
use crate::fx::fx_sqrt;
use crate::fx::fx_sqrt_i;
use crate::fx::fx_sub;
use crate::fx::fx_sub_i;
use crate::fx::EPSILON;
use crate::fx::FX_ONE;
use crate::ray::Ray;
use crate::shape::Object;
use crate::tuple::Tuple;
use crate::world::world_xs_s;
use crate::world::World;

verus! {

/// One ray-surface crossing: the distance along the ray and the index of the
/// object hit (an index into the scene's object list, which stands in for
/// reference identity).
#[derive(Clone, Copy, Debug, PartialEq, Eq, Structural)]
pub struct Intersection {
    pub t: i64,
    pub object: usize,
}

/// Candidate intersections of one ray, sorted ascending by `t`.
#[derive(Clone, Debug)]
pub struct IntersectionList {
    pub intersections: Vec<Intersection>,
}

pub open spec fn sorted_by_t_s(s: Seq<Intersection>) -> bool {
    forall|i: int, j: int| 0 <= i < j < s.len() ==> s[i].t <= s[j].t
}

/// Insert `x` into a sorted sequence after every element with `t <= x.t`,
/// which is where a stable insertion sort puts it.
pub open spec fn insert_sorted_s(s: Seq<Intersection>, x: Intersection) -> Seq<Intersection>
    decreases s.len(),
{
    if s.len() == 0 {
        seq![x]
    } else if s[0].t <= x.t {
        seq![s[0]] + insert_sorted_s(s.drop_first(), x)
    } else {
        seq![x] + s
    }
}

/// Stable insertion sort by `t`, processing elements left to right.
pub open spec fn sort_by_t_s(s: Seq<Intersection>) -> Seq<Intersection>
    decreases s.len(),
{
    if s.len() == 0 {
        Seq::empty()
    } else {
        insert_sorted_s(sort_by_t_s(s.drop_last()), s.last())
    }
}

/// The first index of `s` whose `t` is strictly positive; `s.len()` if none.
pub open spec fn first_positive_s(s: Seq<Intersection>) -> int
    decreases s.len(),
{
    if s.len() == 0 {
        0
    } else if s[0].t > 0 {
        0
    } else {
        1 + first_positive_s(s.drop_first())
    }
}

/// The visible hit of a candidate sequence: its first element with `t > 0`.
pub open spec fn hit_s(s: Seq<Intersection>) -> Option<Intersection> {
    if first_positive_s(s) < s.len() {
        Some(s[first_positive_s(s)])
    } else {
        None
    }
}

proof fn lemma_insert_sorted(s: Seq<Intersection>, x: Intersection)
    requires
        sorted_by_t_s(s),
    ensures
        sorted_by_t_s(insert_sorted_s(s, x)),
        insert_sorted_s(s, x).len() == s.len() + 1,
        insert_sorted_s(s, x).to_multiset() == s.to_multiset().insert(x),
    decreases s.len(),
{
    broadcast use vstd::seq_lib::group_to_multiset_ensures;
    broadcast use vstd::seq_lib::to_multiset_insert;
    broadcast use vstd::multiset::group_multiset_axioms;

    if s.len() == 0 {
        assert(seq![x] =~= Seq::<Intersection>::empty().insert(0, x));
        assert(Seq::<Intersection>::empty().insert(0, x).to_multiset() == Seq::<
            Intersection,
        >::empty().to_multiset().insert(x));
    } else if s[0].t <= x.t {
        let h = s[0];
        let rest = s.drop_first();
        assert(sorted_by_t_s(rest));
        lemma_insert_sorted(rest, x);
        let q = insert_sorted_s(rest, x);
        let r = seq![h] + q;
        assert(r =~= q.insert(0, h));
        assert(s =~= rest.insert(0, h));
        assert(r.to_multiset() == q.to_multiset().insert(h));
        assert(s.to_multiset() == rest.to_multiset().insert(h));
        assert(r.to_multiset() =~= s.to_multiset().insert(x));
        assert forall|i: int, j: int| 0 <= i < j < r.len() implies r[i].t <= r[j].t by {
            if i > 0 {
                assert(r[i] == q[i - 1]);
                assert(r[j] == q[j - 1]);
            } else {
                assert(r[j] == q[j - 1]);
                assert(q.to_multiset().contains(q[j - 1]));
                if q[j - 1] != x {
                    assert(rest.to_multiset().contains(q[j - 1]));
                    assert(rest.contains(q[j - 1]));
                }
            }
        }
    } else {
        let r = seq![x] + s;
        assert(r =~= s.insert(0, x));
        assert(r.to_multiset() == s.to_multiset().insert(x));
        assert forall|i: int, j: int| 0 <= i < j < r.len() implies r[i].t <= r[j].t by {
            if i > 0 {
                assert(r[i] == s[i - 1] && r[j] == s[j - 1]);
            } else {
                assert(r[j] == s[j - 1]);
                if j > 1 {
                    assert(s[0].t <= s[j - 1].t);
                }
            }
        }
    }
}

pub proof fn lemma_sort_by_t(s: Seq<Intersection>)
    ensures
        sorted_by_t_s(sort_by_t_s(s)),
        sort_by_t_s(s).len() == s.len(),
        sort_by_t_s(s).to_multiset() == s.to_multiset(),
    decreases s.len(),
{
    broadcast use vstd::seq_lib::group_to_multiset_ensures;

    if s.len() == 0 {
    } else {
        let head = s.drop_last();
        lemma_sort_by_t(head);
        lemma_insert_sorted(sort_by_t_s(head), s.last());
        assert(s =~= head.push(s.last()));
        assert(head.push(s.last()).to_multiset() =~= head.to_multiset().insert(s.last()));
    }
}

/// The position where a stable insertion places `x`: s.take(i) ++ [x] ++ s.skip(i)
/// at the first index whose `t` exceeds `x.t`.
proof fn lemma_insert_sorted_at(s: Seq<Intersection>, x: Intersection, i: int)
    requires
        sorted_by_t_s(s),
        0 <= i <= s.len(),
        forall|k: int| 0 <= k < i ==> s[k].t <= x.t,
        i < s.len() ==> s[i].t > x.t,
    ensures
        insert_sorted_s(s, x) == s.take(i) + seq![x] + s.skip(i),
    decreases s.len(),
{
    if s.len() == 0 {
        assert(insert_sorted_s(s, x) =~= s.take(i) + seq![x] + s.skip(i));
    } else if s[0].t <= x.t {
        let rest = s.drop_first();
        assert(i >= 1);
        lemma_insert_sorted_at(rest, x, i - 1);
        assert(insert_sorted_s(s, x) =~= s.take(i) + seq![x] + s.skip(i));
    } else {
        assert(i == 0);
        assert(insert_sorted_s(s, x) =~= s.take(0) + seq![x] + s.skip(0));
    }
}

impl Intersection {
    pub fn new(t: i64, object: usize) -> (r: Intersection)
        ensures
            r == (Intersection { t, object }),
    {
        Intersection { t, object }
    }
}

impl IntersectionList {
    /// Sort the candidates ascending by `t` (stably) and keep them.
    pub fn new(intersections: Vec<Intersection>) -> (r: IntersectionList)
        ensures
            r.intersections@ == sort_by_t_s(intersections@),
            sorted_by_t_s(r.intersections@),
            r.intersections@.len() == intersections@.len(),
    {
        proof {
            lemma_sort_by_t(intersections@);
        }
        let n: usize = intersections.len();
        let mut out: Vec<Intersection> = Vec::new();
        let mut i: usize = 0;
        while i < n
            invariant
                i <= n,
                n == intersections@.len(),
                out@ == sort_by_t_s(intersections@.take(i as int)),
                sorted_by_t_s(out@),
            decreases n - i,
        {
            let x: Intersection = intersections[i];
            // Find the first position whose t exceeds x.t.
            let mut j: usize = 0;
            while j < out.len() && out[j].t <= x.t
                invariant
                    j <= out@.len(),
                    sorted_by_t_s(out@),
                    forall|k: int| 0 <= k < j ==> (#[trigger] out@[k]).t <= x.t,
                decreases out@.len() - j,
            {
                j = j + 1;
            }
            proof {
                lemma_insert_sorted_at(out@, x, j as int);
                lemma_insert_sorted(out@, x);
                assert(intersections@.take(i + 1).drop_last() == intersections@.take(i as int));
                assert(intersections@.take(i + 1).last() == x);
            }
            out.insert(j, x);
            proof {
                assert(out@ =~= sort_by_t_s(intersections@.take(i as int)).take(j as int) + seq![x]
                    + sort_by_t_s(intersections@.take(i as int)).skip(j as int));
            }
            i = i + 1;
        }
        proof {
            assert(intersections@.take(n as int) == intersections@);
        }
        IntersectionList { intersections: out }
    }

    /// The visible hit: the first intersection with `t > 0`. On a list sorted
    /// ascending by `t` (as every list built by this module is), that is the
    /// intersection with the smallest strictly positive `t`; entries at or
    /// behind the ray origin are never returned.
    pub fn hit(&self) -> (r: Option<Intersection>)
        ensures
            r == hit_s(self.intersections@),
            r is Some ==> r->0.t > 0 && self.intersections@.contains(r->0),
            r is None ==> forall|k: int|
                0 <= k < self.intersections@.len() ==> (#[trigger] self.intersections@[k]).t <= 0,
            sorted_by_t_s(self.intersections@) && r is Some ==> forall|k: int|
                0 <= k < self.intersections@.len() && (#[trigger] self.intersections@[k]).t > 0
                    ==> r->0.t <= self.intersections@[k].t,
    {
        let n: usize = self.intersections.len();
        let mut i: usize = 0;
        while i < n
            invariant
                i <= n,
                n == self.intersections@.len(),
                forall|k: int| 0 <= k < i ==> (#[trigger] self.intersections@[k]).t <= 0,
            decreases n - i,
        {
            let x: Intersection = self.intersections[i];
            if x.t > 0 {
                proof {
                    let s = self.intersections@;
                    lemma_first_positive_props(s);
                    let fp = first_positive_s(s);
                    if fp < i {
                        assert(s[fp].t <= 0);
                    }
                    if fp > i as int {
                        assert(s[i as int].t <= 0);
                    }
                    assert(fp == i as int);
                    assert(s.contains(s[i as int]));
                    if sorted_by_t_s(s) {
                        assert forall|k: int| 0 <= k < s.len() && (#[trigger] s[k]).t > 0 implies x.t
                            <= s[k].t by {
                            if k < i as int {
                                assert(s[k].t <= 0);
                            }
                        }
                    }
                }
                return Some(x);
            }
            i = i + 1;
        }
        proof {
            let s = self.intersections@;
            lemma_first_positive_props(s);
            if first_positive_s(s) < s.len() {
                assert(s[first_positive_s(s)].t <= 0);
            }
        }
        None
    }

    /// Append another candidate list and restore the sort, as when the
    /// per-object lists of a scene are merged.
    pub fn merge(self, rhs: IntersectionList) -> (r: IntersectionList)
        ensures
            r.intersections@ == sort_by_t_s(self.intersections@ + rhs.intersections@),
            sorted_by_t_s(r.intersections@),
            r.intersections@.len() == self.intersections@.len() + rhs.intersections@.len(),
    {
        let mut combined: Vec<Intersection> = self.intersections;
        let mut other: Vec<Intersection> = rhs.intersections;
        combined.append(&mut other);
        IntersectionList::new(combined)
    }
}

/// The prefix before `first_positive_s` is all nonpositive, and the element
/// there (when in range) is positive.
proof fn lemma_first_positive_props(s: Seq<Intersection>)
    ensures
        0 <= first_positive_s(s) <= s.len(),
        forall|k: int| 0 <= k < first_positive_s(s) ==> (#[trigger] s[k]).t <= 0,
        first_positive_s(s) < s.len() ==> s[first_positive_s(s)].t > 0,
    decreases s.len(),
{
    if s.len() == 0 {
    } else if s[0].t > 0 {
    } else {
        let rest = s.drop_first();
        lemma_first_positive_props(rest);
        let fp = first_positive_s(s);
        assert forall|k: int| 0 <= k < fp implies (#[trigger] s[k]).t <= 0 by {
            if k > 0 {
                assert(rest[k - 1] == s[k]);
                assert(rest[k - 1].t <= 0);
            }
        }
        if fp < s.len() {
            assert(s[fp] == rest[fp - 1]);
        }
    }
}

/// Sorting keeps exactly the elements of the input.
pub proof fn lemma_sort_contains(s: Seq<Intersection>)
    ensures
        forall|x: Intersection| sort_by_t_s(s).contains(x) <==> s.contains(x),
{
    broadcast use vstd::seq_lib::group_to_multiset_ensures;

    lemma_sort_by_t(s);
    assert forall|x: Intersection| sort_by_t_s(s).contains(x) <==> s.contains(x) by {
        assert(sort_by_t_s(s).contains(x) <==> sort_by_t_s(s).to_multiset().count(x) > 0);
        assert(s.contains(x) <==> s.to_multiset().count(x) > 0);
    }
}

/// The hit is never at or behind the ray origin, and on a sorted list it is
/// the minimal strictly positive candidate; with no positive candidate there
/// is no hit.
pub proof fn lemma_hit_minimal_positive(s: Seq<Intersection>)
    requires
        sorted_by_t_s(s),
    ensures
        hit_s(s) is Some ==> hit_s(s)->0.t > 0 && s.contains(hit_s(s)->0),
        hit_s(s) is Some ==> forall|k: int|
            0 <= k < s.len() && (#[trigger] s[k]).t > 0 ==> hit_s(s)->0.t <= s[k].t,
        hit_s(s) is None ==> forall|k: int| 0 <= k < s.len() ==> (#[trigger] s[k]).t <= 0,
{
    lemma_first_positive_props(s);
    let i = first_positive_s(s);
    if i < s.len() {
        assert(s.contains(s[i]));
        assert forall|k: int| 0 <= k < s.len() && (#[trigger] s[k]).t > 0 implies s[i].t <= s[k].t by {
            if k < i {
                assert(s[k].t <= 0);
            }
        }
    }
}

/// Everything derived from one hit that shading needs: the hit point, eye,
/// normal and reflection vectors, the bias-offset points on either side of
/// the surface, and the refractive indices on the sides being left and
/// entered.
#[derive(Clone, Copy, Debug)]
pub struct IntersectionContext {
    pub t: i64,
    pub object: usize,
    pub point: Tuple,
    pub eye_vector: Tuple,
    pub normal_vector: Tuple,
    pub reflect_vector: Tuple,
    pub inside: bool,
    pub over_point: Tuple,
    pub under_point: Tuple,
    pub n1: i64,
    pub n2: i64,
}

/// The first index of `st` holding `o`; `st.len()` if none.
pub open spec fn find_first_s(st: Seq<usize>, o: usize) -> int
    decreases st.len(),
{
    if st.len() == 0 {
        0
    } else if st[0] == o {
        0
    } else {
        1 + find_first_s(st.drop_first(), o)
    }
}

proof fn lemma_find_first_props(st: Seq<usize>, o: usize)
    ensures
        0 <= find_first_s(st, o) <= st.len(),
        forall|k: int| 0 <= k < find_first_s(st, o) ==> (#[trigger] st[k]) != o,
        find_first_s(st, o) < st.len() ==> st[find_first_s(st, o)] == o,
    decreases st.len(),
{
    if st.len() == 0 {
    } else if st[0] == o {
    } else {
        let rest = st.drop_first();
        lemma_find_first_props(rest, o);
        let f = find_first_s(st, o);
        assert forall|k: int| 0 <= k < f implies (#[trigger] st[k]) != o by {
            if k > 0 {
                assert(rest[k - 1] == st[k]);
                assert(rest[k - 1] != o);
            }
        }
        if f < st.len() {
            assert(st[f] == rest[f - 1]);
        }
    }
}

/// One step of the container stack: a shape already on the stack is being
/// exited and leaves (its first occurrence is removed); otherwise it is
/// being entered and is pushed.
pub open spec fn update_containers_s(st: Seq<usize>, o: usize) -> Seq<usize> {
    let f = find_first_s(st, o);
    if f < st.len() {
        st.remove(f)
    } else {
        st.push(o)
    }
}

/// The container stack after walking the first `k` intersections in order.
pub open spec fn containers_after_s(xs: Seq<Intersection>, k: int) -> Seq<usize>
    decreases k,
{
    if k <= 0 {
        Seq::empty()
    } else {
        update_containers_s(containers_after_s(xs, k - 1), xs[k - 1].object)
    }
}

/// The first index of `xs` equal to the target hit; `xs.len()` if none.
pub open spec fn first_match_s(xs: Seq<Intersection>, target: Intersection) -> int
    decreases xs.len(),
{
    if xs.len() == 0 {
        0
    } else if xs[0] == target {
        0
    } else {
        1 + first_match_s(xs.drop_first(), target)
    }
}

proof fn lemma_first_match_props(xs: Seq<Intersection>, target: Intersection)
    ensures
        0 <= first_match_s(xs, target) <= xs.len(),
        forall|k: int| 0 <= k < first_match_s(xs, target) ==> (#[trigger] xs[k]) != target,
        first_match_s(xs, target) < xs.len() ==> xs[first_match_s(xs, target)] == target,
    decreases xs.len(),
{
    if xs.len() == 0 {
    } else if xs[0] == target {
    } else {
        let rest = xs.drop_first();
        lemma_first_match_props(rest, target);
        let f = first_match_s(xs, target);
        assert forall|k: int| 0 <= k < f implies (#[trigger] xs[k]) != target by {
            if k > 0 {
                assert(rest[k - 1] == xs[k]);
                assert(rest[k - 1] != target);
            }
        }
        if f < xs.len() {
            assert(xs[f] == rest[f - 1]);
        }
    }
}

/// The refractive index of the medium the ray is in, given the stack of
/// shapes it is inside: vacuum when the stack is empty, else the topmost
/// shape's index.
pub open spec fn medium_index_s(objects: Seq<Object>, st: Seq<usize>) -> i64 {
    if st.len() == 0 {
        FX_ONE
    } else {
        objects[st.last() as int].material.refractive_index
    }
}

/// The refractive index on the side the target hit is leaving: from the
/// stack just before the target's position in the walk. Zero when the
/// target does not occur, as when no candidate list was supplied.
pub open spec fn n1_of_s(objects: Seq<Object>, xs: Seq<Intersection>, target: Intersection) -> i64 {
    let h = first_match_s(xs, target);
    if h < xs.len() {
        medium_index_s(objects, containers_after_s(xs, h))
    } else {
        0
    }
}

/// The refractive index on the side the target hit is entering: from the
/// stack just after the target's position in the walk.
pub open spec fn n2_of_s(objects: Seq<Object>, xs: Seq<Intersection>, target: Intersection) -> i64 {
    let h = first_match_s(xs, target);
    if h < xs.len() {
        medium_index_s(objects, containers_after_s(xs, h + 1))
    } else {
        0
    }
}

impl Intersection {
    /// The full shading context of this hit, as `context` computes it.
    pub open spec fn context_s(
        self,
        objects: Seq<Object>,
        ray: Ray,
        xs: Option<Seq<Intersection>>,
    ) -> IntersectionContext {
        let point = ray.position_s(self.t);
        let eye_vector = ray.direction.neg_s();
        let raw_normal = objects[self.object as int].normal_at_s(point);
        let inside = raw_normal.dot_s(eye_vector) < 0;
        let normal_vector = if inside {
            raw_normal.neg_s()
        } else {
            raw_normal
        };
        let over_point = point.add_s(normal_vector.mul_s(EPSILON));
        let under_point = point.sub_s(normal_vector.mul_s(EPSILON));
        let reflect_vector = ray.direction.reflect_s(normal_vector);
        let n1 = match xs {
            None => 0,
            Some(seq) => n1_of_s(objects, seq, self),
        };
        let n2 = match xs {
            None => 0,
            Some(seq) => n2_of_s(objects, seq, self),
        };
        IntersectionContext {
            t: self.t,
            object: self.object,
            point,
            eye_vector,
            normal_vector,
            reflect_vector,
            inside,
            over_point,
            under_point,
            n1,
            n2,
        }
    }

    /// Build the shading context for this hit: derived geometry, and the
    /// refractive indices found by walking the candidate list with the
    /// container stack.
    #[verifier::rlimit(100)]
    pub fn context(&self, ray: &Ray, objects: &Vec<Object>, xs: Option<&IntersectionList>) -> (r:
        IntersectionContext)
        requires
            ray.wf_s(),
            (self.object as int) < objects@.len(),
            objects@[self.object as int].wf_s(),
            match xs {
                Some(l) => forall|k: int|
                    0 <= k < l.intersections@.len() ==> (#[trigger] l.intersections@[k]).object
                        < objects@.len(),
                None => true,
            },
        ensures
            r == self.context_s(
                objects@,
                *ray,
                match xs {
                    Some(l) => Some(l.intersections@),
                    None => None::<Seq<Intersection>>,
                },
            ),
            r.object == self.object,
            r.point.is_point_s(),
            r.over_point.is_point_s(),
            r.under_point.is_point_s(),
            r.eye_vector.is_vector_s(),
            r.normal_vector.is_vector_s(),
            r.reflect_vector.is_vector_s(),
    {
        let point: Tuple = ray.position(self.t);
        let eye_vector: Tuple = ray.direction.neg();
        let raw_normal: Tuple = objects[self.object].normal_at(point);
        let inside: bool = raw_normal.dot(&eye_vector) < 0;
        let normal_vector: Tuple = if inside {
            raw_normal.neg()
        } else {
            raw_normal
        };
        let over_point: Tuple = point.add(normal_vector.mul(EPSILON));
        let under_point: Tuple = point.sub(normal_vector.mul(EPSILON));
        let reflect_vector: Tuple = ray.direction.reflect(&normal_vector);
        proof {
            crate::fx::lemma_fx_mul_zero((2 * FX_ONE) as i64);
            crate::fx::lemma_fx_mul_zero(ray.direction.dot_s(normal_vector));
            assert(fx_sub_i(0i64, 0i64) == 0i64);
            assert(reflect_vector.is_vector_s());
        }

        let mut n1: i64 = 0;
        let mut n2: i64 = 0;

        match xs {
            None => {},
            Some(xs) => {
                let target: Intersection = Intersection { t: self.t, object: self.object };
                let ghost xsv = xs.intersections@;
                let n: usize = xs.intersections.len();
                let mut containers: Vec<usize> = Vec::new();
                let mut done: bool = false;
                let mut i: usize = 0;
                proof {
                    lemma_first_match_props(xsv, target);
                }
                while i < n && !done
                    invariant
                        i <= n,
                        n == xsv.len(),
                        xsv == xs.intersections@,
                        target == *self,
                        forall|k: int|
                            0 <= k < xsv.len() ==> (#[trigger] xsv[k]).object < objects@.len(),
                        !done ==> containers@ == containers_after_s(xsv, i as int),
                        !done ==> forall|k: int| 0 <= k < i ==> (#[trigger] xsv[k]) != target,
                        !done ==> n1 == 0 && n2 == 0,
                        forall|k: int|
                            0 <= k < containers@.len() ==> (#[trigger] containers@[k])
                                < objects@.len(),
                        done ==> n1 == n1_of_s(objects@, xsv, target),
                        done ==> n2 == n2_of_s(objects@, xsv, target),
                    decreases n - i,
                {
                    let x: Intersection = xs.intersections[i];
                    let is_target: bool = x.t == target.t && x.object == target.object;
                    if is_target {
                        proof {
                            lemma_first_match_props(xsv, target);
                            assert(first_match_s(xsv, target) == i as int);
                        }
                        if containers.len() == 0 {
                            n1 = FX_ONE;
                        } else {
                            let top: usize = containers[containers.len() - 1];
                            n1 = objects[top].material.refractive_index;
                        }
                    }

                    // Remove the first occurrence of x.object, or push it.
                    let ghost old_containers = containers@;
                    let m: usize = containers.len();
                    let mut j: usize = 0;
                    while j < m && containers[j] != x.object
                        invariant
                            j <= m,
                            m == containers@.len(),
                            containers@ == old_containers,
                            forall|k: int| 0 <= k < j ==> (#[trigger] containers@[k]) != x.object,
                        decreases m - j,
                    {
                        j = j + 1;
                    }
                    proof {
                        lemma_find_first_props(old_containers, x.object);
                        if j < m {
                            assert(find_first_s(old_containers, x.object) == j as int);
                        } else {
                            assert(find_first_s(old_containers, x.object) == m as int);
                        }
                    }
                    if j < m {
                        containers.remove(j);
                        proof {
                            assert forall|k: int|
                                0 <= k < containers@.len() implies (#[trigger] containers@[k])
                                < objects@.len() by {
                                if k < j {
                                    assert(containers@[k] == old_containers[k]);
                                } else {
                                    assert(containers@[k] == old_containers[k + 1]);
                                }
                            }
                        }
                    } else {
                        containers.push(x.object);
                    }
                    proof {
                        if !done {
                            assert(containers@ == containers_after_s(xsv, i + 1));
                        }
                    }

                    if is_target {
                        if containers.len() == 0 {
                            n2 = FX_ONE;
                        } else {
                            let top: usize = containers[containers.len() - 1];
                            proof {
                                assert(containers@.last() == containers@[containers@.len() - 1]);
                            }
                            n2 = objects[top].material.refractive_index;
                        }
                        done = true;
                    }
                    i = i + 1;
                }
                proof {
                    if !done {
                        lemma_first_match_props(xsv, target);
                        assert(first_match_s(xsv, target) == n as int);
                    }
                }
            },
        }

        IntersectionContext {
            t: self.t,
            object: self.object,
            point,
            eye_vector,
            normal_vector,
            reflect_vector,
            inside,
            over_point,
            under_point,
            n1,
            n2,
        }
    }
}

impl IntersectionContext {
    /// What the shading routines need of a context built against scene `w`.
    pub open spec fn shading_wf_s(self, w: World) -> bool {
        &&& (self.object as int) < w.objects@.len()
        &&& self.over_point.is_point_s()
        &&& self.under_point.is_point_s()
        &&& self.eye_vector.is_vector_s()
        &&& self.normal_vector.is_vector_s()
        &&& self.reflect_vector.is_vector_s()
    }
}

/// Color carried by the reflected ray: black on a non-reflective surface or
/// an exhausted bounce budget, else the recursively resolved color of the
/// ray leaving `over_point` along the reflection vector, scaled by the
/// surface's reflectivity.
pub open spec fn reflected_color_s(w: World, ctx: IntersectionContext, remaining: u8) -> Color
    decreases remaining, 1nat,
{
    let reflective = w.objects@[ctx.object as int].material.reflective;
    if reflective == 0 || remaining == 0 {
        Color::black_s()
    } else {
        color_hit_s(
            w,
            Ray { origin: ctx.over_point, direction: ctx.reflect_vector },
            (remaining - 1) as u8,
        ).scale_s(reflective)
    }
}

/// Color carried by the refracted ray: black on an opaque surface, an
/// exhausted budget, or total internal reflection; else Snell's law gives
/// the refracted direction from `under_point` and the recursion resolves it,
/// scaled by the surface's transparency.
pub open spec fn refracted_color_s(w: World, ctx: IntersectionContext, remaining: u8) -> Color
    decreases remaining, 1nat,
{
    let transparency = w.objects@[ctx.object as int].material.transparency;
    if transparency == 0 || remaining == 0 {
        Color::black_s()
    } else {
        let n_ratio = fx_div_i(ctx.n1, ctx.n2);
        let cos_i = ctx.eye_vector.dot_s(ctx.normal_vector);
        let sin2_t = fx_mul_i(fx_mul_i(n_ratio, n_ratio), fx_sub_i(FX_ONE, fx_mul_i(cos_i, cos_i)));
        if sin2_t > FX_ONE {
            Color::black_s()
        } else {
            let cos_t = fx_sqrt_i(fx_sub_i(FX_ONE, sin2_t));
            let direction = ctx.normal_vector.mul_s(fx_sub_i(fx_mul_i(n_ratio, cos_i), cos_t)).sub_s(
                ctx.eye_vector.mul_s(n_ratio),
            );
            color_hit_s(
                w,
                Ray { origin: ctx.under_point, direction },
                (remaining - 1) as u8,
            ).scale_s(transparency)
        }
    }
}

/// The Schlick approximation to Fresnel reflectance: exactly one under
/// total internal reflection, else `r0 + (1 - r0) * (1 - cos)^5`.
pub open spec fn schlick_s(ctx: IntersectionContext) -> i64 {
    let cos0 = ctx.eye_vector.dot_s(ctx.normal_vector);
    let tir = ctx.n1 > ctx.n2 && schlick_sin2_t_s(ctx) > FX_ONE;
    if tir {
        FX_ONE
    } else {
        let cos = if ctx.n1 > ctx.n2 {
            fx_sqrt_i(fx_sub_i(FX_ONE, schlick_sin2_t_s(ctx)))
        } else {
            cos0
        };
        let q = fx_div_i(fx_sub_i(ctx.n1, ctx.n2), fx_add_i(ctx.n1, ctx.n2));
        let r0 = fx_mul_i(q, q);
        fx_add_i(r0, fx_mul_i(fx_sub_i(FX_ONE, r0), fx_powi_i(fx_sub_i(FX_ONE, cos), 5)))
    }
}

/// The squared sine of the refraction angle, used by the reflectance test
/// when the ray exits into a less dense medium.
pub open spec fn schlick_sin2_t_s(ctx: IntersectionContext) -> i64 {
    let cos0 = ctx.eye_vector.dot_s(ctx.normal_vector);
    let n = fx_div_i(ctx.n1, ctx.n2);
    fx_mul_i(fx_mul_i(n, n), fx_sub_i(FX_ONE, fx_mul_i(cos0, cos0)))
}

/// Local Phong shading at the hit, plus the reflected and refracted
/// contributions; when the surface is both reflective and transparent the
/// two are blended by the Schlick reflectance.
pub open spec fn shade_hit_s(w: World, ctx: IntersectionContext, remaining: u8) -> Color
    decreases remaining, 2nat,
{
    let obj = w.objects@[ctx.object as int];
    let in_shadow = w.is_shadowed_s(ctx.over_point);
    let surface = obj.material.lighting_s(
        w.lights@[0],
        obj.transform,
        ctx.over_point,
        ctx.eye_vector,
        ctx.normal_vector,
        in_shadow,
    );
    let reflected = reflected_color_s(w, ctx, remaining);
    let refracted = refracted_color_s(w, ctx, remaining);
    if obj.material.reflective > 0 && obj.material.transparency > 0 {
        let reflectance = schlick_s(ctx);
        surface.add_s(reflected.scale_s(reflectance)).add_s(
            refracted.scale_s(fx_sub_i(FX_ONE, reflectance)),
        )
    } else {
        surface.add_s(reflected).add_s(refracted)
    }
}

/// The color a ray resolves to against the scene: black where it misses
/// everything, else the recursively shaded nearest hit. Each reflective or
/// refractive bounce decrements `remaining`, so the recursion is bounded by
/// the initial budget.
pub open spec fn color_hit_s(w: World, ray: Ray, remaining: u8) -> Color
    decreases remaining, 3nat,
{
    let xs = world_xs_s(w, ray);
    match hit_s(xs) {
        None => Color::black_s(),
        Some(h) => shade_hit_s(w, h.context_s(w.objects@, ray, Some(xs)), remaining),
    }
}

impl IntersectionContext {
    pub fn reflected_color(&self, world: &World, remaining: u8) -> (r: Color)
        requires
            world.wf_s(),
            self.shading_wf_s(*world),
        ensures
            r == reflected_color_s(*world, *self, remaining),
        decreases remaining, 1int,
    {
        let reflective: i64 = world.objects[self.object].material.reflective;
        if reflective == 0 || remaining == 0 {
            Color::black()
        } else {
            let reflect_ray: Ray = Ray::new(self.over_point, self.reflect_vector);
            reflect_ray.color_hit(world, remaining - 1).scale(reflective)
        }
    }

    pub fn refracted_color(&self, world: &World, remaining: u8) -> (r: Color)
        requires
            world.wf_s(),
            self.shading_wf_s(*world),
        ensures
            r == refracted_color_s(*world, *self, remaining),
        decreases remaining, 1int,
    {
        let transparency: i64 = world.objects[self.object].material.transparency;
        if transparency == 0 || remaining == 0 {
            Color::black()
        } else {
            let n_ratio: i64 = fx_div(self.n1, self.n2);
            let cos_i: i64 = self.eye_vector.dot(&self.normal_vector);
            let sin2_t: i64 = fx_mul(fx_mul(n_ratio, n_ratio), fx_sub(FX_ONE, fx_mul(cos_i, cos_i)));
            if sin2_t > FX_ONE {
                return Color::black();
            }
            let cos_t: i64 = fx_sqrt(fx_sub(FX_ONE, sin2_t));
            let direction: Tuple = self.normal_vector.mul(fx_sub(fx_mul(n_ratio, cos_i), cos_t)).sub(
                self.eye_vector.mul(n_ratio),
            );
            proof {
                crate::fx::lemma_fx_mul_zero(fx_sub_i(fx_mul_i(n_ratio, cos_i), cos_t));
                crate::fx::lemma_fx_mul_zero(n_ratio);
                assert(fx_sub_i(0i64, 0i64) == 0i64);
                assert(direction.is_vector_s());
            }
            let refracted_ray: Ray = Ray::new(self.under_point, direction);
            refracted_ray.color_hit(world, remaining - 1).scale(transparency)
        }
    }

    /// The Schlick reflectance; exactly one whenever total internal
    /// reflection occurs (`n1 > n2` and the squared refracted sine above
    /// one).
    pub fn schlick(&self) -> (r: i64)
        requires
            self.normal_vector.is_vector_s(),
        ensures
            r == schlick_s(*self),
            self.n1 > self.n2 && schlick_sin2_t_s(*self) > FX_ONE ==> r == FX_ONE,
    {
        let mut cos: i64 = self.eye_vector.dot(&self.normal_vector);
        if self.n1 > self.n2 {
            let n: i64 = fx_div(self.n1, self.n2);
            let sin2_t: i64 = fx_mul(fx_mul(n, n), fx_sub(FX_ONE, fx_mul(cos, cos)));
            if sin2_t > FX_ONE {
                return FX_ONE;
            }
            cos = fx_sqrt(fx_sub(FX_ONE, sin2_t));
        }
        let q: i64 = fx_div(fx_sub(self.n1, self.n2), fx_add(self.n1, self.n2));
        let r0: i64 = fx_mul(q, q);
        fx_add(r0, fx_mul(fx_sub(FX_ONE, r0), fx_powi(fx_sub(FX_ONE, cos), 5)))
    }

    pub fn shade_hit(&self, world: &World, remaining: u8) -> (r: Color)
        requires
            world.wf_s(),
            self.shading_wf_s(*world),
        ensures
            r == shade_hit_s(*world, *self, remaining),
        decreases remaining, 2int,
    {
        let in_shadow: bool = world.is_shadowed(self.over_point);
        let surface: Color = world.objects[self.object].material.lighting(
            &world.lights[0],
            &world.objects[self.object],
            self.over_point,
            self.eye_vector,
            self.normal_vector,
            in_shadow,
        );

        let reflected: Color = self.reflected_color(world, remaining);
        let refracted: Color = self.refracted_color(world, remaining);

        let reflective: i64 = world.objects[self.object].material.reflective;
        let transparency: i64 = world.objects[self.object].material.transparency;
        if reflective > 0 && transparency > 0 {
            let reflectance: i64 = self.schlick();
            surface.add(reflected.scale(reflectance)).add(
                refracted.scale(fx_sub(FX_ONE, reflectance)),
            )
        } else {
            surface.add(reflected).add(refracted)
        }
    }
}

} // verus!
