//! An owned, growable sequence that always holds at least one element.

use vstd::prelude::*;
use vstd::std_specs::convert::TryFromSpec;

verus! {

/// Error signaled when an operation would shrink a container below its
/// minimum length, or when a source too short to satisfy it is offered.
#[derive(Debug, Clone)]
pub struct NotEnoughElementsError;

/// A wrapping of `Vec` that guarantees at least one element at all times.
///
/// Methods follow the semantics of `Vec`; the ones that could empty the
/// vector behave differently and carry a different name or result type.
#[derive(Debug, Clone)]
pub struct NonEmptyVec<T> {
    vec: Vec<T>,
}

impl<T> View for NonEmptyVec<T> {
    type V = Seq<T>;

    closed spec fn view(&self) -> Seq<T> {
        self.vec@
    }
}

impl<T> NonEmptyVec<T> {
    /// The length invariant: the backing vector is never empty.
    pub open spec fn wf(self) -> bool {
        self@.len() >= 1
    }

    /// Builds a sequence holding exactly the given element.
    pub fn from_single(value: T) -> (r: Self)
        ensures
            r.wf(),
            r@ == seq![value],
    {
        let mut vec: Vec<T> = Vec::new();
        vec.push(value);
        proof {
            assert(vec@ =~= seq![value]);
        }
        NonEmptyVec { vec }
    }

    pub fn len(&self) -> (r: usize)
        requires
            self.wf(),
        ensures
            r == self@.len(),
            r >= 1,
    {
        self.vec.len()
    }

    pub fn has_len(&self, len: usize) -> (r: bool)
        ensures
            r == (self@.len() == len),
    {
        self.vec.len() == len
    }

    pub fn first(&self) -> (r: &T)
        requires
            self.wf(),
        ensures
            *r == self@[0],
    {
        &self.vec[0]
    }

    pub fn first_mut(&mut self) -> (r: &mut T)
        requires
            old(self).wf(),
        ensures
            *r == old(self)@[0],
            final(self)@ == old(self)@.update(0, *final(r)),
            final(self).wf(),
    {
        &mut self.vec[0]
    }

    pub fn last(&self) -> (r: &T)
        requires
            self.wf(),
        ensures
            *r == self@.last(),
    {
        &self.vec[self.vec.len() - 1]
    }

    pub fn last_mut(&mut self) -> (r: &mut T)
        requires
            old(self).wf(),
        ensures
            *r == old(self)@.last(),
            final(self)@ == old(self)@.update(old(self)@.len() - 1, *final(r)),
            final(self).wf(),
    {
        let idx = self.vec.len() - 1;
        &mut self.vec[idx]
    }

    /// Takes the first element, discarding the rest; the sequence is consumed.
    pub fn take(self) -> (r: T)
        requires
            self.wf(),
        ensures
            r == self@[0],
    {
        let NonEmptyVec { mut vec } = self;
        vec.remove(0)
    }

    /// Appends an element; growth can never threaten the invariant.
    pub fn push(&mut self, value: T)
        requires
            old(self).wf(),
        ensures
            final(self)@ == old(self)@.push(value),
            final(self).wf(),
    {
        self.vec.push(value);
    }

    /// Inserts an element at `insertion_idx`, shifting what follows it.
    pub fn insert(&mut self, insertion_idx: usize, value: T)
        requires
            old(self).wf(),
            insertion_idx <= old(self)@.len(),
        ensures
            final(self)@ == old(self)@.insert(insertion_idx as int, value),
            final(self).wf(),
    {
        self.vec.insert(insertion_idx, value);
    }

    /// Removes and returns the last element, or `None` — with no mutation —
    /// when only one element remains. The empty signal is a normal outcome,
    /// not an error.
    pub fn pop(&mut self) -> (r: Option<T>)
        requires
            old(self).wf(),
        ensures
            old(self)@.len() == 1 ==> r is None && final(self)@ == old(self)@,
            old(self)@.len() > 1 ==> r == Some(old(self)@.last()) && final(self)@ == old(
                self,
            )@.drop_last(),
            final(self).wf(),
    {
        if self.vec.len() == 1 {
            None
        } else {
            self.vec.pop()
        }
    }

    pub fn as_slice(&self) -> (r: &[T])
        ensures
            r@ == self@,
    {
        self.vec.as_slice()
    }

    pub fn as_mut_slice(&mut self) -> (r: &mut [T])
        ensures
            r@ == old(self)@,
            final(self)@ == final(r)@,
    {
        self.vec.as_mut_slice()
    }

    /// Removes and returns the element at `idx`, shifting what follows it;
    /// fails — with no mutation — when only one element remains.
    pub fn remove(&mut self, idx: usize) -> (r: Result<T, NotEnoughElementsError>)
        requires
            old(self).wf(),
            old(self)@.len() > 1 ==> idx < old(self)@.len(),
        ensures
            old(self)@.len() == 1 ==> r is Err && final(self)@ == old(self)@,
            old(self)@.len() > 1 ==> r == Ok::<T, NotEnoughElementsError>(old(self)@[idx as int])
                && final(self)@ == old(self)@.remove(idx as int),
            final(self).wf(),
    {
        if self.vec.len() == 1 {
            Err(NotEnoughElementsError)
        } else {
            Ok(self.vec.remove(idx))
        }
    }

    /// Removes and returns the element at `idx` in constant time by swapping
    /// the last element into its place; fails — with no mutation — when only
    /// one element remains. Does not preserve order.
    pub fn swap_remove(&mut self, idx: usize) -> (r: Result<T, NotEnoughElementsError>)
        requires
            old(self).wf(),
            old(self)@.len() > 1 ==> idx < old(self)@.len(),
        ensures
            old(self)@.len() == 1 ==> r is Err && final(self)@ == old(self)@,
            old(self)@.len() > 1 ==> r == Ok::<T, NotEnoughElementsError>(old(self)@[idx as int])
                && final(self)@ == old(self)@.update(idx as int, old(self)@.last()).drop_last(),
            final(self).wf(),
    {
        if self.vec.len() == 1 {
            Err(NotEnoughElementsError)
        } else {
            Ok(self.vec.swap_remove(idx))
        }
    }
}

impl<T> TryFrom<Vec<T>> for NonEmptyVec<T> {
    type Error = NotEnoughElementsError;

    /// The only way to build a `NonEmptyVec` out of a `Vec`: fails exactly
    /// when the source is empty, and otherwise keeps it as it is.
    fn try_from(vec: Vec<T>) -> (ret: Result<Self, NotEnoughElementsError>)
        ensures
            vec@.len() == 0 ==> ret is Err,
            vec@.len() >= 1 ==> (ret matches Ok(s) && s@ == vec@ && s.wf()),
    {
        if vec.is_empty() {
            Err(NotEnoughElementsError)
        } else {
            Ok(NonEmptyVec { vec })
        }
    }
}

impl<T> vstd::std_specs::convert::TryFromSpecImpl<Vec<T>> for NonEmptyVec<T> {
    open spec fn obeys_try_from_spec() -> bool {
        true
    }

    closed spec fn try_from_spec(vec: Vec<T>) -> Result<Self, NotEnoughElementsError> {
        if vec@.len() == 0 {
            Err(NotEnoughElementsError)
        } else {
            Ok(NonEmptyVec { vec })
        }
    }
}

/// Law: building from a nonempty vector keeps it exactly, element for
/// element (the round trip through `as_slice` gives the source back), and
/// building from an empty vector always fails, never succeeds.
pub proof fn lemma_vec_round_trip<T>(vec: Vec<T>)
    ensures
        vec@.len() >= 1 ==> (NonEmptyVec::<T>::try_from_spec(vec) matches Ok(s) && s@ == vec@
            && s.wf()),
        vec@.len() == 0 ==> NonEmptyVec::<T>::try_from_spec(vec) is Err,
{
}

} // verus!
