//! Rays: an origin point and a direction vector, parametrized as
//! `origin + t * direction`.

use vstd::prelude::*;
use crate::intersection::IntersectionList;
use crate::intersection::sorted_by_t_s;
use crate::matrix::Matrix;
use crate::shape::Object;
use crate::world::World;
use crate::world::world_xs_s;
use crate::world::world_xs_upto_s;
use crate::color::Color;
use crate::intersection::color_hit_s;
use crate::tuple::Tuple;

verus! {

#[derive(Clone, Copy, Debug, PartialEq, Eq, Structural)]
pub struct Ray {
    pub origin: Tuple,
    pub direction: Tuple,
}

impl Ray {
    pub open spec fn wf_s(self) -> bool {
        self.origin.is_point_s() && self.direction.is_vector_s()
    }

    pub fn new(origin: Tuple, direction: Tuple) -> (r: Ray)
        requires
            origin.is_point_s(),
            direction.is_vector_s(),
        ensures
            r == (Ray { origin, direction }),
            r.wf_s(),
    {
        Ray { origin, direction }
    }

    /// The point reached after travelling `time` along the ray.
    pub open spec fn position_s(self, time: i64) -> Tuple {
        self.origin.add_s(self.direction.mul_s(time))
    }

    pub fn position(&self, time: i64) -> (r: Tuple)
        ensures
            r == self.position_s(time),
            self.wf_s() ==> r.is_point_s(),
    {
        self.origin.add(self.direction.mul(time))
    }

    /// The ray carried through a transform, origin and direction alike.
    pub open spec fn transform_s(self, m: Matrix) -> Ray {
        Ray { origin: m.mul_tuple_s(self.origin), direction: m.mul_tuple_s(self.direction) }
    }

    pub fn transform(&self, transformation: &Matrix) -> (r: Ray)
        requires
            transformation.is_square_s(4),
        ensures
            r == self.transform_s(*transformation),
    {
        let origin: Tuple = transformation.mul_tuple(self.origin);
        let direction: Tuple = transformation.mul_tuple(self.direction);
        Ray { origin, direction }
    }

    /// All candidate intersections with one object, sorted ascending by `t`
    /// and tagged with `index`.
    pub fn intersect_object(&self, object: &Object, index: usize) -> (r: IntersectionList)
        requires
            object.wf_s(),
            self.wf_s(),
        ensures
            r.intersections@ == object.intersections_s(*self, index),
            sorted_by_t_s(r.intersections@),
    {
        object.intersect(self, index)
    }

    /// All candidate intersections with every object of the scene, merged
    /// into one list ascending by `t`. Each entry's object index is in
    /// range.
    #[verifier::rlimit(60)]
    pub fn intersect_world(&self, world: &World) -> (r: IntersectionList)
        requires
            world.wf_s(),
            self.wf_s(),
        ensures
            r.intersections@ == world_xs_s(*world, *self),
            sorted_by_t_s(r.intersections@),
            forall|k: int|
                0 <= k < r.intersections@.len() ==> (#[trigger] r.intersections@[k]).object
                    < world.objects@.len(),
    {
        let n: usize = world.objects.len();
        let mut acc: IntersectionList = IntersectionList::new(Vec::new());
        proof {
            assert(acc.intersections@ =~= world_xs_upto_s(*world, *self, 0));
        }
        let mut i: usize = 0;
        while i < n
            invariant
                i <= n,
                n == world.objects@.len(),
                world.wf_s(),
                self.wf_s(),
                acc.intersections@ == world_xs_upto_s(*world, *self, i as nat),
                sorted_by_t_s(acc.intersections@),
                forall|k: int|
                    0 <= k < acc.intersections@.len() ==> (#[trigger] acc.intersections@[k]).object
                        < n,
            decreases n - i,
        {
            let ghost old_acc = acc.intersections@;
            let il: IntersectionList = world.objects[i].intersect(self, i);
            proof {
                crate::shape::lemma_wrap_ts_objects(
                    world.objects@[i as int].local_ts_s(
                        world.objects@[i as int].object_ray_s(*self),
                    ),
                    i,
                );
            }
            let ghost il_view = il.intersections@;
            acc = acc.merge(il);
            proof {
                crate::intersection::lemma_sort_contains(old_acc + il_view);
                assert forall|k: int| 0 <= k < acc.intersections@.len() implies (
                #[trigger] acc.intersections@[k]).object < n by {
                    let e = acc.intersections@[k];
                    assert(acc.intersections@.contains(e));
                    assert((old_acc + il_view).contains(e));
                    let j = choose|j: int|
                        0 <= j < (old_acc + il_view).len() && (old_acc + il_view)[j] == e;
                    if j < old_acc.len() {
                        assert(e == old_acc[j]);
                    } else {
                        assert(e == il_view[j - old_acc.len()]);
                    }
                }
            }
            i = i + 1;
        }
        acc
    }
}

impl Ray {
    /// The color this ray resolves to against the scene, with `remaining`
    /// reflective or refractive bounces allowed.
    pub fn color_hit(&self, world: &World, remaining: u8) -> (r: Color)
        requires
            world.wf_s(),
            self.wf_s(),
        ensures
            r == color_hit_s(*world, *self, remaining),
        decreases remaining, 3int,
    {
        let i: IntersectionList = self.intersect_world(world);
        let hit = i.hit();
        match hit {
            None => Color::black(),
            Some(h) => {
                proof {
                    assert(i.intersections@.contains(h));
                    let k = choose|k: int|
                        0 <= k < i.intersections@.len() && i.intersections@[k] == h;
                    assert(i.intersections@[k].object < world.objects@.len());
                }
                let ctx = h.context(self, &world.objects, Some(&i));
                ctx.shade_hit(world, remaining)
            },
        }
    }
}

} // verus!
