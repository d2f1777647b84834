//! A closed sum type holding exactly one, two or three elements, allowing
//! pattern matching over the arity.

use core::cmp::Ordering;
use vstd::laws_cmp::obeys_partial_cmp_spec_properties;
use vstd::laws_eq::obeys_eq_spec_properties;
use vstd::prelude::*;
use vstd::std_specs::cmp::PartialEqSpec;
use vstd::std_specs::cmp::PartialOrdSpec;
use vstd::std_specs::convert::TryFromSpec;

verus! {

/// Error signaled when a fixed-arity collection is built from an empty source.
#[derive(Debug, Clone, PartialEq, Eq)]
pub struct EmptySourceError;

/// An ordered collection of 1, 2 or 3 elements, allowing pattern matching.
///
/// The arity is fixed at construction: there is no insertion or removal, only
/// whole-container transformations that keep the arity (`map`, `sorted`).
#[derive(Debug, Clone, Copy, Hash)]
pub enum OneToThree<T> {
    One(T),
    Two(T, T),
    Three(T, T, T),
}

impl<T> View for OneToThree<T> {
    type V = Seq<T>;

    open spec fn view(&self) -> Seq<T> {
        match self {
            OneToThree::One(a) => seq![*a],
            OneToThree::Two(a, b) => seq![*a, *b],
            OneToThree::Three(a, b, c) => seq![*a, *b, *c],
        }
    }
}

impl<T> OneToThree<T> {
    pub fn one(a: T) -> (r: Self)
        ensures
            r == OneToThree::One(a),
            r@ == seq![a],
    {
        OneToThree::One(a)
    }

    pub fn two(a: T, b: T) -> (r: Self)
        ensures
            r == OneToThree::Two(a, b),
            r@ == seq![a, b],
    {
        OneToThree::Two(a, b)
    }

    pub fn three(a: T, b: T, c: T) -> (r: Self)
        ensures
            r == OneToThree::Three(a, b, c),
            r@ == seq![a, b, c],
    {
        OneToThree::Three(a, b, c)
    }

    /// The arity: exact, unlike the lower bound a `NonEmptyVec` length gives.
    pub fn len(&self) -> (r: usize)
        ensures
            r == self@.len(),
            1 <= r <= 3,
    {
        match self {
            OneToThree::One(_) => 1,
            OneToThree::Two(_, _) => 2,
            OneToThree::Three(_, _, _) => 3,
        }
    }

    /// A fresh walk over the slots; building another one starts over.
    pub fn iter<'i>(&'i self) -> (r: OneToThreeIter<'i, T>)
        ensures
            r.spec_pos() == 0,
            r.elements() == self@,
    {
        OneToThreeIter::new(self)
    }

    pub fn first(&self) -> (r: &T)
        ensures
            *r == self@[0],
    {
        match self {
            OneToThree::One(f) => f,
            OneToThree::Two(f, _) => f,
            OneToThree::Three(f, _, _) => f,
        }
    }

    pub fn first_mut(&mut self) -> (r: &mut T)
        ensures
            *r == old(self)@[0],
            final(self)@ == old(self)@.update(0, *final(r)),
    {
        match self {
            OneToThree::One(f) => f,
            OneToThree::Two(f, _) => f,
            OneToThree::Three(f, _, _) => f,
        }
    }

    /// The element at a 0-based index, or `None` past the arity: absence is a
    /// normal outcome, not an error.
    pub fn get(&self, i: usize) -> (r: Option<&T>)
        ensures
            i < self@.len() ==> (r matches Some(x) && *x == self@[i as int]),
            i >= self@.len() ==> r is None,
    {
        match self {
            OneToThree::One(a) => {
                if i == 0 {
                    Some(a)
                } else {
                    None
                }
            },
            OneToThree::Two(a, b) => {
                if i == 0 {
                    Some(a)
                } else if i == 1 {
                    Some(b)
                } else {
                    None
                }
            },
            OneToThree::Three(a, b, c) => {
                if i == 0 {
                    Some(a)
                } else if i == 1 {
                    Some(b)
                } else if i == 2 {
                    Some(c)
                } else {
                    None
                }
            },
        }
    }

    /// The element at a 0-based index for writing, or `None` past the arity.
    pub fn get_mut(&mut self, i: usize) -> (r: Option<&mut T>)
        ensures
            i < old(self)@.len() ==> (r is Some && *r.unwrap() == old(self)@[i as int]
                && final(self)@ == old(self)@.update(i as int, *final(r.unwrap()))),
            i >= old(self)@.len() ==> r is None && *final(self) == *old(self),
    {
        match self {
            OneToThree::One(a) => {
                if i == 0 {
                    Some(a)
                } else {
                    None
                }
            },
            OneToThree::Two(a, b) => {
                if i == 0 {
                    Some(a)
                } else if i == 1 {
                    Some(b)
                } else {
                    None
                }
            },
            OneToThree::Three(a, b, c) => {
                if i == 0 {
                    Some(a)
                } else if i == 1 {
                    Some(b)
                } else if i == 2 {
                    Some(c)
                } else {
                    None
                }
            },
        }
    }

    /// Consumes the collection into a vector of its elements, in slot order.
    pub fn to_vec(self) -> (r: Vec<T>)
        ensures
            r@ == self@,
    {
        let ghost view = self@;
        let mut r: Vec<T> = Vec::new();
        match self {
            OneToThree::One(a) => {
                r.push(a);
            },
            OneToThree::Two(a, b) => {
                r.push(a);
                r.push(b);
            },
            OneToThree::Three(a, b, c) => {
                r.push(a);
                r.push(b);
                r.push(c);
            },
        }
        proof {
            assert(r@ =~= view);
        }
        r
    }

    /// Borrows the collection into a vector of references, in slot order.
    pub fn to_ref_vec(&self) -> (r: Vec<&T>)
        ensures
            r@.len() == self@.len(),
            forall|i: int| 0 <= i < r@.len() ==> *(#[trigger] r@[i]) == self@[i],
    {
        let mut r: Vec<&T> = Vec::new();
        match self {
            OneToThree::One(a) => {
                r.push(a);
            },
            OneToThree::Two(a, b) => {
                r.push(a);
                r.push(b);
            },
            OneToThree::Three(a, b, c) => {
                r.push(a);
                r.push(b);
                r.push(c);
            },
        }
        r
    }
}

/// The `<=` relation that `partial_cmp` induces on `T`.
pub open spec fn le_spec<T: PartialOrd>(x: T, y: T) -> bool {
    x.partial_cmp_spec(&y) matches Some(Ordering::Less | Ordering::Equal)
}

/// Adjacent elements never decrease.
pub open spec fn non_decreasing<T: PartialOrd>(s: Seq<T>) -> bool {
    forall|i: int| 0 <= i && i + 1 < s.len() ==> #[trigger] le_spec(s[i], s[i + 1])
}

/// What `sorted` asks of `T`'s ordering to deliver a non-decreasing result:
/// `partial_cmp` agrees with its specification, that specification satisfies
/// the usual order laws, and every two elements are comparable.
pub open spec fn totally_ordered<T: PartialOrd>() -> bool {
    &&& T::obeys_partial_cmp_spec()
    &&& obeys_partial_cmp_spec_properties::<T>()
    &&& forall|x: T, y: T| #[trigger] x.partial_cmp_spec(&y) is Some
}

/// When two elements are comparable and the first is not below the second,
/// the second is below or equal to the first.
proof fn lemma_not_less_flips<T: PartialOrd>(x: T, y: T)
    requires
        totally_ordered::<T>(),
        x.partial_cmp_spec(&y) != Some(Ordering::Less),
    ensures
        le_spec(y, x),
{
    reveal(obeys_partial_cmp_spec_properties);
    reveal(obeys_eq_spec_properties);
    assert(x.partial_cmp_spec(&y) is Some);
    if x.partial_cmp_spec(&y) == Some(Ordering::Equal) {
        assert(x.eq_spec(&y));
        assert(y.eq_spec(&x));
        assert(y.partial_cmp_spec(&x) == Some(Ordering::Equal));
    } else {
        assert(x.partial_cmp_spec(&y) == Some(Ordering::Greater));
        assert(y.partial_cmp_spec(&x) == Some(Ordering::Less));
    }
}

/// Law: a type whose `Ord` obeys the comparison laws (as vstd states them
/// of the integer types) is totally ordered in the sense `sorted` asks for.
pub proof fn lemma_cmp_laws_give_total_order<T: Ord>()
    requires
        vstd::laws_cmp::obeys_cmp::<T>(),
    ensures
        totally_ordered::<T>(),
{
    reveal(vstd::laws_cmp::obeys_cmp_partial_ord);
    reveal(vstd::laws_cmp::obeys_cmp_ord);
}

proof fn lemma_multiset_perm2<T>(a: T, b: T)
    ensures
        seq![a, b].to_multiset() == seq![b, a].to_multiset(),
{
    broadcast use vstd::seq_lib::group_to_multiset_ensures;
    broadcast use vstd::multiset::group_multiset_axioms;

    assert(seq![a, b] =~= Seq::empty().push(a).push(b));
    assert(seq![b, a] =~= Seq::empty().push(b).push(a));
    assert(seq![a, b].to_multiset() =~= seq![b, a].to_multiset());
}

proof fn lemma_multiset_perm3<T>(a: T, b: T, c: T)
    ensures
        seq![a, b, c].to_multiset() == seq![a, c, b].to_multiset(),
        seq![a, b, c].to_multiset() == seq![c, a, b].to_multiset(),
        seq![a, b, c].to_multiset() == seq![b, a, c].to_multiset(),
        seq![a, b, c].to_multiset() == seq![b, c, a].to_multiset(),
        seq![a, b, c].to_multiset() == seq![c, b, a].to_multiset(),
{
    broadcast use vstd::seq_lib::group_to_multiset_ensures;
    broadcast use vstd::multiset::group_multiset_axioms;

    assert(seq![a, b, c] =~= Seq::empty().push(a).push(b).push(c));
    assert(seq![a, c, b] =~= Seq::empty().push(a).push(c).push(b));
    assert(seq![c, a, b] =~= Seq::empty().push(c).push(a).push(b));
    assert(seq![b, a, c] =~= Seq::empty().push(b).push(a).push(c));
    assert(seq![b, c, a] =~= Seq::empty().push(b).push(c).push(a));
    assert(seq![c, b, a] =~= Seq::empty().push(c).push(b).push(a));
    assert(seq![a, b, c].to_multiset() =~= seq![a, c, b].to_multiset());
    assert(seq![a, b, c].to_multiset() =~= seq![c, a, b].to_multiset());
    assert(seq![a, b, c].to_multiset() =~= seq![b, a, c].to_multiset());
    assert(seq![a, b, c].to_multiset() =~= seq![b, c, a].to_multiset());
    assert(seq![a, b, c].to_multiset() =~= seq![c, b, a].to_multiset());
}

impl<T: PartialOrd> OneToThree<T> {
    /// A new collection of the same arity holding the same elements; they
    /// come out in non-decreasing order whenever `T`'s ordering is total.
    /// Arity 2 takes one comparison; arity 3 a decision tree over all six
    /// orders. Equal elements are interchangeable: no stability is promised.
    pub fn sorted(self) -> (r: Self)
        ensures
            r@.len() == self@.len(),
            r@.to_multiset() == self@.to_multiset(),
            totally_ordered::<T>() ==> non_decreasing(r@),
    {
        match self {
            OneToThree::One(a) => OneToThree::One(a),
            OneToThree::Two(a, b) => {
                if a < b {
                    OneToThree::Two(a, b)
                } else {
                    proof {
                        lemma_multiset_perm2(a, b);
                        if totally_ordered::<T>() {
                            lemma_not_less_flips(a, b);
                        }
                    }
                    OneToThree::Two(b, a)
                }
            },
            OneToThree::Three(a, b, c) => {
                proof {
                    lemma_multiset_perm3(a, b, c);
                }
                if a < b {
                    if b < c {
                        OneToThree::Three(a, b, c)
                    } else if a < c {
                        proof {
                            if totally_ordered::<T>() {
                                lemma_not_less_flips(b, c);
                            }
                        }
                        OneToThree::Three(a, c, b)
                    } else {
                        proof {
                            if totally_ordered::<T>() {
                                lemma_not_less_flips(a, c);
                            }
                        }
                        OneToThree::Three(c, a, b)
                    }
                } else if a < c {
                    proof {
                        if totally_ordered::<T>() {
                            lemma_not_less_flips(a, b);
                        }
                    }
                    OneToThree::Three(b, a, c)
                } else if b < c {
                    proof {
                        if totally_ordered::<T>() {
                            lemma_not_less_flips(a, b);
                            lemma_not_less_flips(a, c);
                        }
                    }
                    OneToThree::Three(b, c, a)
                } else {
                    proof {
                        if totally_ordered::<T>() {
                            lemma_not_less_flips(a, b);
                            lemma_not_less_flips(b, c);
                        }
                    }
                    OneToThree::Three(c, b, a)
                }
            },
        }
    }
}

/// The fallible transform `f` can fail at slot `i` of `s` with error `e`,
/// every slot before `i` having succeeded.
pub open spec fn first_failure_at<T, B, E, F: Fn(T) -> Result<B, E>>(
    f: F,
    s: Seq<T>,
    e: E,
    i: int,
) -> bool {
    &&& 0 <= i < s.len()
    &&& call_ensures(f, (s[i],), Err(e))
    &&& forall|j: int|
        #![trigger s[j]]
        0 <= j < i ==> exists|ok: B| call_ensures(f, (s[j],), Ok(ok))
}

impl<T> OneToThree<T> {
    /// Applies a total transform to every slot, in slot order, preserving
    /// the arity.
    pub fn map<B, F: Fn(T) -> B>(self, f: F) -> (r: OneToThree<B>)
        requires
            forall|i: int| 0 <= i < self@.len() ==> call_requires(f, (self@[i],)),
        ensures
            r@.len() == self@.len(),
            forall|i: int| 0 <= i < self@.len() ==> call_ensures(f, (self@[i],), #[trigger] r@[i]),
    {
        let ghost s = self@;
        match self {
            OneToThree::One(a) => {
                proof {
                    assert(call_requires(f, (s[0],)) && s[0] == a);
                }
                OneToThree::One(f(a))
            },
            OneToThree::Two(a, b) => {
                proof {
                    assert(call_requires(f, (s[0],)) && s[0] == a);
                    assert(call_requires(f, (s[1],)) && s[1] == b);
                }
                OneToThree::Two(f(a), f(b))
            },
            OneToThree::Three(a, b, c) => {
                proof {
                    assert(call_requires(f, (s[0],)) && s[0] == a);
                    assert(call_requires(f, (s[1],)) && s[1] == b);
                    assert(call_requires(f, (s[2],)) && s[2] == c);
                }
                OneToThree::Three(f(a), f(b), f(c))
            },
        }
    }

    /// Applies a fallible transform to every slot in slot order,
    /// short-circuiting on the first failure, whose error is returned; when
    /// every application succeeds, the arity is preserved.
    pub fn try_map<B, E, F: Fn(T) -> Result<B, E>>(self, f: F) -> (r: Result<OneToThree<B>, E>)
        requires
            forall|i: int| 0 <= i < self@.len() ==> call_requires(f, (self@[i],)),
        ensures
            r matches Ok(out) ==> out@.len() == self@.len() && (forall|i: int|
                0 <= i < self@.len() ==> call_ensures(f, (self@[i],), Ok(#[trigger] out@[i]))),
            r matches Err(e) ==> exists|i: int| #[trigger] first_failure_at(f, self@, e, i),
    {
        let ghost s = self@;
        let r = match self {
            OneToThree::One(a) => {
                proof {
                    assert(call_requires(f, (s[0],)) && s[0] == a);
                }
                match f(a) {
                    Ok(x) => Ok(OneToThree::One(x)),
                    Err(e) => {
                        proof {
                            assert(call_ensures(f, (self@[0],), Err::<B, E>(e)));
                            assert(first_failure_at(f, self@, e, 0));
                        }
                        Err(e)
                    },
                }
            },
            OneToThree::Two(a, b) => {
                proof {
                    assert(call_requires(f, (s[0],)) && s[0] == a);
                    assert(call_requires(f, (s[1],)) && s[1] == b);
                }
                match f(a) {
                    Ok(x) => match f(b) {
                        Ok(y) => Ok(OneToThree::Two(x, y)),
                        Err(e) => {
                            proof {
                                assert(call_ensures(f, (self@[0],), Ok::<B, E>(x)));
                                assert(call_ensures(f, (self@[1],), Err::<B, E>(e)));
                                assert(first_failure_at(f, self@, e, 1));
                            }
                            Err(e)
                        },
                    },
                    Err(e) => {
                        proof {
                            assert(call_ensures(f, (self@[0],), Err::<B, E>(e)));
                            assert(first_failure_at(f, self@, e, 0));
                        }
                        Err(e)
                    },
                }
            },
            OneToThree::Three(a, b, c) => {
                proof {
                    assert(call_requires(f, (s[0],)) && s[0] == a);
                    assert(call_requires(f, (s[1],)) && s[1] == b);
                    assert(call_requires(f, (s[2],)) && s[2] == c);
                }
                match f(a) {
                    Ok(x) => match f(b) {
                        Ok(y) => match f(c) {
                            Ok(z) => Ok(OneToThree::Three(x, y, z)),
                            Err(e) => {
                                proof {
                                    assert(call_ensures(f, (self@[0],), Ok::<B, E>(x)));
                                    assert(call_ensures(f, (self@[1],), Ok::<B, E>(y)));
                                    assert(call_ensures(f, (self@[2],), Err::<B, E>(e)));
                                    assert(first_failure_at(f, self@, e, 2));
                                }
                                Err(e)
                            },
                        },
                        Err(e) => {
                            proof {
                                assert(call_ensures(f, (self@[0],), Ok::<B, E>(x)));
                                assert(call_ensures(f, (self@[1],), Err::<B, E>(e)));
                                assert(first_failure_at(f, self@, e, 1));
                            }
                            Err(e)
                        },
                    },
                    Err(e) => {
                        proof {
                            assert(call_ensures(f, (self@[0],), Err::<B, E>(e)));
                            assert(first_failure_at(f, self@, e, 0));
                        }
                        Err(e)
                    },
                }
            },
        };
        proof {
            if let Err(e) = &r {
                assert(exists|i: int| first_failure_at(f, self@, *e, i));
            }
        }
        r
    }
}

impl<T: PartialEq> vstd::std_specs::cmp::PartialEqSpecImpl for OneToThree<T> {
    open spec fn obeys_eq_spec() -> bool {
        T::obeys_eq_spec()
    }

    /// Two collections are equal exactly when they have the same arity and
    /// corresponding slots are equal, compared pairwise in slot order.
    open spec fn eq_spec(&self, other: &Self) -> bool {
        self@.len() == other@.len() && (forall|i: int|
            0 <= i < self@.len() ==> #[trigger] self@[i].eq_spec(&other@[i]))
    }
}

impl<T: PartialEq> PartialEq for OneToThree<T> {
    fn eq(&self, other: &Self) -> (r: bool) {
        let r = match (self, other) {
            (OneToThree::One(a), OneToThree::One(x)) => a == x,
            (OneToThree::Two(a, b), OneToThree::Two(x, y)) => a == x && b == y,
            (OneToThree::Three(a, b, c), OneToThree::Three(x, y, z)) => a == x && b == y && c
                == z,
            _ => false,
        };
        proof {
            if T::obeys_eq_spec() {
                match (self, other) {
                    (OneToThree::One(a), OneToThree::One(x)) => {
                        assert(self@[0].eq_spec(&other@[0]) == a.eq_spec(x));
                    },
                    (OneToThree::Two(a, b), OneToThree::Two(x, y)) => {
                        assert(self@[0].eq_spec(&other@[0]) == a.eq_spec(x));
                        assert(self@[1].eq_spec(&other@[1]) == b.eq_spec(y));
                    },
                    (OneToThree::Three(a, b, c), OneToThree::Three(x, y, z)) => {
                        assert(self@[0].eq_spec(&other@[0]) == a.eq_spec(x));
                        assert(self@[1].eq_spec(&other@[1]) == b.eq_spec(y));
                        assert(self@[2].eq_spec(&other@[2]) == c.eq_spec(z));
                    },
                    _ => {},
                }
            }
        }
        r
    }
}

impl<T: Eq> Eq for OneToThree<T> {

}

/// Law: equality agrees with pairwise slot-order comparison, whatever the
/// arities; collections of different arity are never equal.
pub proof fn lemma_eq_is_pairwise_in_slot_order<T: PartialEq>(a: OneToThree<T>, b: OneToThree<T>)
    ensures
        a.eq_spec(&b) <==> (a@.len() == b@.len() && (forall|i: int|
            0 <= i < a@.len() ==> #[trigger] a@[i].eq_spec(&b@[i]))),
        a@.len() != b@.len() ==> !a.eq_spec(&b),
{
}

/// A lazy, restartable walk over the slots of a `OneToThree`, front to back.
/// Rebuilding it starts the walk over; advancing it never touches the
/// collection.
pub struct OneToThreeIter<'i, T> {
    idx: usize,
    few: &'i OneToThree<T>,
}

impl<'i, T> OneToThreeIter<'i, T> {
    /// How many slots the walk has already yielded.
    pub closed spec fn spec_pos(self) -> int {
        self.idx as int
    }

    /// The elements the walk visits, in slot order.
    pub closed spec fn elements(self) -> Seq<T> {
        self.few@
    }

    pub fn new(few: &'i OneToThree<T>) -> (r: Self)
        ensures
            r.spec_pos() == 0,
            r.elements() == few@,
    {
        OneToThreeIter { idx: 0, few }
    }

    /// The next element, or `None` once every slot has been yielded; asking
    /// again after that keeps returning `None`.
    pub fn next(&mut self) -> (r: Option<&'i T>)
        ensures
            final(self).elements() == old(self).elements(),
            old(self).spec_pos() < old(self).elements().len() ==> (r matches Some(x)
                && *x == old(self).elements()[old(self).spec_pos()]
                && final(self).spec_pos() == old(self).spec_pos() + 1),
            old(self).spec_pos() >= old(self).elements().len() ==> (r is None
                && final(self).spec_pos() == old(self).spec_pos()),
    {
        let i = self.idx;
        match self.few.get(i) {
            Some(x) => {
                self.idx = i + 1;
                Some(x)
            },
            None => None,
        }
    }
}

impl<T> TryFrom<Vec<T>> for OneToThree<T> {
    type Error = EmptySourceError;

    /// Builds from a variable-length vector: an empty source fails, one of up
    /// to three elements is kept front-to-back, and a longer one deliberately
    /// keeps only its last three elements, in order (the front is dropped).
    fn try_from(v: Vec<T>) -> (ret: Result<Self, EmptySourceError>)
        ensures
            v@.len() == 0 ==> ret is Err,
            1 <= v@.len() <= 3 ==> (ret matches Ok(s) && s@ == v@),
            v@.len() > 3 ==> (ret matches Ok(s) && s@ == v@.subrange(
                v@.len() - 3,
                v@.len() as int,
            )),
    {
        let ghost orig = v;
        let mut v = v;
        let r = match v.pop() {
            None => Err(EmptySourceError),
            Some(c) => match v.pop() {
                None => Ok(OneToThree::One(c)),
                Some(b) => match v.pop() {
                    None => Ok(OneToThree::Two(b, c)),
                    Some(a) => Ok(OneToThree::Three(a, b, c)),
                },
            },
        };
        proof {
            if let Ok(s) = &r {
                if orig@.len() <= 3 {
                    assert(s@ =~= orig@);
                } else {
                    assert(s@ =~= orig@.subrange(orig@.len() - 3, orig@.len() as int));
                }
            }
        }
        r
    }
}

impl<T> vstd::std_specs::convert::TryFromSpecImpl<Vec<T>> for OneToThree<T> {
    open spec fn obeys_try_from_spec() -> bool {
        true
    }

    open spec fn try_from_spec(v: Vec<T>) -> Result<Self, EmptySourceError> {
        let n = v@.len() as int;
        if n == 0 {
            Err(EmptySourceError)
        } else if n == 1 {
            Ok(OneToThree::One(v@[0]))
        } else if n == 2 {
            Ok(OneToThree::Two(v@[0], v@[1]))
        } else {
            Ok(OneToThree::Three(v@[n - 3], v@[n - 2], v@[n - 1]))
        }
    }
}

impl<T> From<T> for OneToThree<T> {
    fn from(a: T) -> (r: Self)
        ensures
            r == OneToThree::One(a),
    {
        OneToThree::One(a)
    }
}

impl<T> vstd::std_specs::convert::FromSpecImpl<T> for OneToThree<T> {
    open spec fn obeys_from_spec() -> bool {
        true
    }

    open spec fn from_spec(a: T) -> Self {
        OneToThree::One(a)
    }
}

impl<T> From<(T, T)> for OneToThree<T> {
    fn from(t: (T, T)) -> (r: Self)
        ensures
            r == OneToThree::Two(t.0, t.1),
    {
        OneToThree::Two(t.0, t.1)
    }
}

impl<T> vstd::std_specs::convert::FromSpecImpl<(T, T)> for OneToThree<T> {
    open spec fn obeys_from_spec() -> bool {
        true
    }

    open spec fn from_spec(t: (T, T)) -> Self {
        OneToThree::Two(t.0, t.1)
    }
}

impl<T> From<(T, T, T)> for OneToThree<T> {
    fn from(t: (T, T, T)) -> (r: Self)
        ensures
            r == OneToThree::Three(t.0, t.1, t.2),
    {
        OneToThree::Three(t.0, t.1, t.2)
    }
}

impl<T> vstd::std_specs::convert::FromSpecImpl<(T, T, T)> for OneToThree<T> {
    open spec fn obeys_from_spec() -> bool {
        true
    }

    open spec fn from_spec(t: (T, T, T)) -> Self {
        OneToThree::Three(t.0, t.1, t.2)
    }
}

} // verus!
