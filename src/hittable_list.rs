//! The scene aggregate: an ordered list of objects and its nearest-hit policy.
use vstd::prelude::*;

verus! {

/// An ordered collection of scene objects.
pub struct HittableList<T> {
    pub objects: Vec<T>,
}

impl<T> View for HittableList<T> {
    type V = Seq<T>;

    open spec fn view(&self) -> Seq<T> {
        self.objects@
    }
}

impl<T> HittableList<T> {
    /// An empty scene.
    pub fn new() -> (l: Self)
        ensures
            l@ == Seq::<T>::empty(),
    {
        HittableList { objects: Vec::new() }
    }

    /// Removes every object.
    pub fn clear(&mut self)
        ensures
            final(self)@ == Seq::<T>::empty(),
    {
        self.objects.clear();
    }

    /// Appends an object after the ones already there.
    pub fn add(&mut self, object: T)
        ensures
            final(self)@ == old(self)@.push(object),
    {
        self.objects.push(object);
    }

    /// The number of objects.
    pub fn len(&self) -> (n: usize)
        ensures
            n == self@.len(),
    {
        self.objects.len()
    }
}

/// Index `i` holds an accepted hit that no other accepted hit is nearer than.
pub open spec fn is_closest(hits: Seq<Option<u64>>, i: int) -> bool {
    &&& 0 <= i < hits.len()
    &&& hits[i] is Some
    &&& forall|j: int| 0 <= j < hits.len() && (#[trigger] hits[j]) is Some ==> hits[i]->0 <= hits[j]->0
}

/// Whether no object accepted the ray.
pub open spec fn no_hit(hits: Seq<Option<u64>>) -> bool {
    forall|j: int| 0 <= j < hits.len() ==> #[trigger] hits[j] is None
}

/// The nearest hit of a scan over the objects in order. `hits[j]` is the
/// ordered key of the distance at which object `j` accepts the ray within the
/// query interval, or `None`. Which of several equally near hits is kept is
/// left open.
pub fn closest_hit(hits: &Vec<Option<u64>>) -> (r: Option<usize>)
    ensures
        r is None <==> no_hit(hits@),
        r matches Some(i) ==> is_closest(hits@, i as int),
{
    let mut best: Option<usize> = None;
    let mut best_key: u64 = 0;
    let n = hits.len();
    let mut j: usize = 0;
    while j < n
        invariant
            n == hits@.len(),
            j <= n,
            best is None <==> forall|k: int| 0 <= k < j ==> #[trigger] hits@[k] is None,
            best matches Some(b) ==> {
                &&& b < j
                &&& hits@[b as int] == Some(best_key)
                &&& forall|k: int| 0 <= k < j && (#[trigger] hits@[k]) is Some ==> best_key <= hits@[k]->0
                &&& forall|k: int| b < k < j && (#[trigger] hits@[k]) is Some ==> best_key < hits@[k]->0
            },
        decreases n - j,
    {
        match hits[j] {
            Some(key) => {
                if best.is_none() || key <= best_key {
                    best = Some(j);
                    best_key = key;
                }
            },
            None => {},
        }
        j = j + 1;
    }
    best
}

} // verus!
