//! Containers that carry a length invariant in their type: an owned sequence
//! that always holds at least one element, a borrowed view with the same
//! guarantee, and a closed sum type holding exactly one, two or three elements.
//!
//! Encoding "at least one" or "exactly this many" in the type lets callers
//! drop defensive emptiness checks: `first` and `last` always succeed, and the
//! operations that could empty a container either refuse to or signal an empty
//! result instead.

mod non_empty_slice;
mod non_empty_vec;
mod one_to_three;

pub use non_empty_slice::NonEmptySlice;
pub use non_empty_slice::lemma_slice_view_round_trip;
pub use non_empty_vec::NonEmptyVec;
pub use non_empty_vec::NotEnoughElementsError;
pub use non_empty_vec::lemma_vec_round_trip;
pub use one_to_three::EmptySourceError;
pub use one_to_three::OneToThree;
pub use one_to_three::OneToThreeIter;
pub use one_to_three::first_failure_at;
pub use one_to_three::le_spec;
pub use one_to_three::lemma_cmp_laws_give_total_order;
pub use one_to_three::lemma_eq_is_pairwise_in_slot_order;
pub use one_to_three::non_decreasing;
pub use one_to_three::totally_ordered;
