//! A borrowed, read-only view over a sequence, guaranteed non-empty.

use crate::non_empty_vec::NotEnoughElementsError;
use vstd::prelude::*;
use vstd::std_specs::convert::TryFromSpec;

verus! {

/// A zero-copy wrapping of a borrowed slice, ensuring there is always at
/// least one element. A viewing facade only: it offers the read-only subset
/// of `NonEmptyVec` and never outlives the data it refers to.
pub struct NonEmptySlice<'a, T> {
    slice: &'a [T],
}

impl<'a, T> View for NonEmptySlice<'a, T> {
    type V = Seq<T>;

    closed spec fn view(&self) -> Seq<T> {
        self.slice@
    }
}

/// Relies on core::slice::from_ref: a slice of length one holding exactly
/// the referenced value.
#[verifier::external_body]
fn slice_from_ref<'a, T>(value: &'a T) -> (r: &'a [T])
    ensures
        r@ == seq![*value],
{
    core::slice::from_ref(value)
}

impl<'a, T> NonEmptySlice<'a, T> {
    /// The length invariant: the borrowed slice is never empty.
    pub open spec fn wf(self) -> bool {
        self@.len() >= 1
    }

    /// Builds a view of exactly the one referenced element.
    pub fn from_single(value: &'a T) -> (r: Self)
        ensures
            r.wf(),
            r@ == seq![*value],
    {
        NonEmptySlice { slice: slice_from_ref(value) }
    }

    pub fn len(&self) -> (r: usize)
        requires
            self.wf(),
        ensures
            r == self@.len(),
            r >= 1,
    {
        self.slice.len()
    }

    pub fn has_len(&self, len: usize) -> (r: bool)
        ensures
            r == (self@.len() == len),
    {
        self.slice.len() == len
    }

    pub fn first(&self) -> (r: &T)
        requires
            self.wf(),
        ensures
            *r == self@[0],
    {
        &self.slice[0]
    }

    pub fn last(&self) -> (r: &T)
        requires
            self.wf(),
        ensures
            *r == self@.last(),
    {
        &self.slice[self.slice.len() - 1]
    }

    pub fn as_slice(&self) -> (r: &[T])
        ensures
            r@ == self@,
    {
        self.slice
    }
}

impl<'a, T> TryFrom<&'a [T]> for NonEmptySlice<'a, T> {
    type Error = NotEnoughElementsError;

    /// The only way to view a borrowed slice through this type: fails exactly
    /// when the slice is empty, and otherwise views it whole.
    fn try_from(slice: &'a [T]) -> (ret: Result<Self, NotEnoughElementsError>)
        ensures
            slice@.len() == 0 ==> ret is Err,
            slice@.len() >= 1 ==> (ret matches Ok(s) && s@ == slice@ && s.wf()),
    {
        if slice.is_empty() {
            Err(NotEnoughElementsError)
        } else {
            Ok(NonEmptySlice { slice })
        }
    }
}

impl<'a, T> vstd::std_specs::convert::TryFromSpecImpl<&'a [T]> for NonEmptySlice<'a, T> {
    open spec fn obeys_try_from_spec() -> bool {
        true
    }

    closed spec fn try_from_spec(slice: &'a [T]) -> Result<Self, NotEnoughElementsError> {
        if slice@.len() == 0 {
            Err(NotEnoughElementsError)
        } else {
            Ok(NonEmptySlice { slice })
        }
    }
}

/// Law: viewing a nonempty slice keeps it exactly (round trip through
/// `as_slice`), and viewing an empty slice always fails, never succeeds.
pub proof fn lemma_slice_view_round_trip<'a, T>(slice: &'a [T])
    ensures
        slice@.len() >= 1 ==> (NonEmptySlice::<'a, T>::try_from_spec(slice) matches Ok(s) && s@
            == slice@),
        slice@.len() == 0 ==> NonEmptySlice::<'a, T>::try_from_spec(slice) is Err,
{
}

} // verus!
