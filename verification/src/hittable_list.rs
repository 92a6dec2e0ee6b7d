use vstd::prelude::*;
use crate::float::{le, lt, Float};
use crate::hittable::{HitRecord, Hittable};
use crate::interval::Interval;
use crate::ray::Ray;

verus! {

/// Objects in the order in which they were added.  One object may stand in the
/// list more than once.
pub struct HittableList<H> {
    pub objects: Vec<H>,
}

/// The nearer of two hits; the first of them where neither is nearer.
pub open spec fn nearer<T: Float>(first: Option<HitRecord<T>>, second: Option<HitRecord<T>>) -> Option<
    HitRecord<T>,
> {
    match (first, second) {
        (Some(a), Some(b)) => if lt(b.time, a.time) {
            second
        } else {
            first
        },
        (Some(_), None) => first,
        (None, _) => second,
    }
}

/// The nearest of the hits of the ray on the objects; of several that are
/// equally near, the one on the object that comes first.
pub open spec fn nearest_hit<T: Float, H: Hittable<T>>(
    objects: Seq<H>,
    ray: Ray<T>,
    interval: Interval<T>,
) -> Option<HitRecord<T>>
    decreases objects.len(),
{
    if objects.len() == 0 {
        None
    } else {
        nearer(
            nearest_hit(objects.drop_last(), ray, interval),
            objects.last().spec_hit(ray, interval),
        )
    }
}

/// Whether the object at `k` is hit and gives the nearest hit: no object is hit
/// nearer, and every object before it is hit farther, if at all.
pub open spec fn is_nearest<T: Float, H: Hittable<T>>(
    objects: Seq<H>,
    ray: Ray<T>,
    interval: Interval<T>,
    k: int,
) -> bool {
    &&& 0 <= k < objects.len()
    &&& objects[k].spec_hit(ray, interval) is Some
    &&& forall|j: int|
        0 <= j < objects.len() ==> (#[trigger] objects[j].spec_hit(ray, interval) matches Some(
            other,
        ) ==> {
            &&& le(objects[k].spec_hit(ray, interval)->0.time, other.time)
            &&& j < k ==> lt(objects[k].spec_hit(ray, interval)->0.time, other.time)
        })
}

impl<H> HittableList<H> {
    pub fn new(objects: Vec<H>) -> (r: Self)
        ensures
            r.objects == objects,
    {
        HittableList { objects }
    }

    pub fn clear(&mut self)
        ensures
            final(self).objects@ == Seq::<H>::empty(),
    {
        self.objects.clear();
    }

    pub fn add(&mut self, object: H)
        ensures
            final(self).objects@ == old(self).objects@.push(object),
    {
        self.objects.push(object);
    }
}

impl<H> core::default::Default for HittableList<H> {
    fn default() -> (r: HittableList<H>)
        ensures
            r.objects@ == Seq::<H>::empty(),
    {
        HittableList { objects: Vec::new() }
    }
}

impl<T: Float, H: Hittable<T>> Hittable<T> for HittableList<H> {
    open spec fn spec_hit(&self, ray: Ray<T>, interval: Interval<T>) -> Option<HitRecord<T>> {
        nearest_hit(self.objects@, ray, interval)
    }

    fn hit(&self, ray: &Ray<T>, interval: &Interval<T>) -> (r: Option<HitRecord<T>>)
        ensures
            r is None <==> forall|j: int|
                0 <= j < self.objects.len() ==> (#[trigger] self.objects[j].spec_hit(
                    *ray,
                    *interval,
                )) is None,
            r is Some ==> exists|k: int|
                #[trigger] is_nearest(self.objects@, *ray, *interval, k) && r
                    == self.objects[k].spec_hit(*ray, *interval),
    {
        let mut best: Option<HitRecord<T>> = None;
        let ghost mut at: int = 0;
        let mut i: usize = 0;
        while i < self.objects.len()
            invariant
                i <= self.objects.len(),
                best == nearest_hit(self.objects@.take(i as int), *ray, *interval),
                best matches Some(rec) ==> interval.spec_surrounds(rec.time),
                best is None <==> forall|j: int|
                    0 <= j < i ==> (#[trigger] self.objects[j].spec_hit(*ray, *interval)) is None,
                forall|j: int|
                    0 <= j < i ==> (#[trigger] self.objects[j].spec_hit(*ray, *interval) matches Some(
                        rec,
                    ) ==> interval.spec_surrounds(rec.time)),
                best is Some ==> is_nearest(self.objects@.take(i as int), *ray, *interval, at)
                    && best == self.objects[at].spec_hit(*ray, *interval),
            decreases self.objects.len() - i,
        {
            let ghost before = self.objects@.take(i as int);
            let ghost after = self.objects@.take(i + 1);
            assert(after.drop_last() =~= before);
            assert(after.last() == self.objects[i as int]);
            assert(forall|j: int| 0 <= j < i ==> before[j] == self.objects[j]);
            assert(forall|j: int| 0 <= j <= i ==> after[j] == self.objects[j]);
            let found = self.objects[i].hit(ray, interval);
            match found {
                Some(rec) => {
                    let replace = match &best {
                        Some(b) => rec.time.lt(b.time),
                        None => true,
                    };
                    if replace {
                        best = Some(rec);
                        proof {
                            at = i as int;
                        }
                    }
                },
                None => {},
            }
            i += 1;
        }
        assert(self.objects@.take(i as int) =~= self.objects@);
        best
    }
}

} // verus!
