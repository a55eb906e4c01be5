use vstd::prelude::*;

verus! {

/// The objects of a scene, kept in the order in which they were added.
pub struct HittableVector<T> {
    objects: Vec<T>,
}

impl<T> View for HittableVector<T> {
    type V = Seq<T>;

    closed spec fn view(&self) -> Seq<T> {
        self.objects@
    }
}

impl<T> HittableVector<T> {
    /// An empty scene.
    pub fn new() -> (r: Self)
        ensures
            r@ == Seq::<T>::empty(),
    {
        HittableVector { objects: Vec::new() }
    }

    /// Adds an object after those already there.
    pub fn push(&mut self, object: T)
        ensures
            final(self)@ == old(self)@.push(object),
    {
        self.objects.push(object);
    }

    /// Removes every object.
    pub fn clear(&mut self)
        ensures
            final(self)@ == Seq::<T>::empty(),
    {
        self.objects.clear();
    }

    /// The objects, in the order in which they were added.
    pub fn objects(&self) -> (r: &[T])
        ensures
            r@ == self@,
    {
        self.objects.as_slice()
    }
}

} // verus!
