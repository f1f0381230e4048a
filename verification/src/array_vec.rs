use vstd::prelude::*;

verus! {

/// A vector with a fixed capacity bound `CAP`.
#[derive(Debug, Clone)]
pub struct ArrayVec<T, const CAP: usize> {
    contents: Vec<T>,
}

impl<T, const CAP: usize> ArrayVec<T, CAP> {
    /// The stored elements, in order.
    pub closed spec fn view_spec(self) -> Seq<T> {
        self.contents@
    }

    /// Never more elements than the capacity.
    pub open spec fn wf(self) -> bool {
        self.view_spec().len() <= CAP
    }

    pub fn new() -> (r: ArrayVec<T, CAP>)
        ensures
            r.wf(),
            r.view_spec().len() == 0,
    {
        ArrayVec { contents: Vec::new() }
    }

    pub fn len(&self) -> (r: usize)
        ensures
            r == self.view_spec().len(),
    {
        self.contents.len()
    }

    /// The elements as a slice.
    pub fn as_slice(&self) -> (r: &[T])
        ensures
            r@ == self.view_spec(),
    {
        self.contents.as_slice()
    }

    /// Appends an element; the caller must know there is room.
    pub fn push(&mut self, element: T)
        requires
            old(self).wf(),
            old(self).view_spec().len() < CAP,
        ensures
            final(self).wf(),
            final(self).view_spec() == old(self).view_spec().push(element),
    {
        self.contents.push(element);
    }

    /// Appends an element if there is room, and reports whether there was.
    pub fn try_push(&mut self, element: T) -> (r: Result<(), ()>)
        requires
            old(self).wf(),
        ensures
            final(self).wf(),
            r is Ok <==> old(self).view_spec().len() < CAP,
            r is Ok ==> final(self).view_spec() == old(self).view_spec().push(element),
            r is Err ==> *final(self) == *old(self),
    {
        if self.contents.len() < CAP {
            self.contents.push(element);
            Ok(())
        } else {
            Err(())
        }
    }

    /// Removes the element at `index`, shifting the rest left.
    pub fn remove(&mut self, index: usize)
        requires
            old(self).wf(),
            index < old(self).view_spec().len(),
        ensures
            final(self).wf(),
            final(self).view_spec() == old(self).view_spec().remove(index as int),
    {
        self.contents.remove(index);
    }
}

} // verus!
