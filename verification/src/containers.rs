//! Flexible-multiplicity containers. `OneToN` holds at least one element and
//! decodes from either a bare value or a non-empty list; `ZeroToN` also admits
//! an absent state and an empty list, which presence checks treat alike.

use vstd::prelude::*;
use crate::error::Error;

verus! {

/// A vector that is guaranteed to hold at least one element.
#[derive(Debug, PartialEq, Eq)]
pub struct NonEmptyVec<T> {
    inner: Vec<T>,
}

impl<T> NonEmptyVec<T> {
    /// Every constructor rejects emptiness, so each value holds an element.
    #[verifier::type_invariant]
    closed spec fn wf(self) -> bool {
        self.inner@.len() >= 1
    }

    /// The elements, in order.
    pub closed spec fn elements(self) -> Seq<T> {
        self.inner@
    }

    /// Wrap a vector, failing with a shape error when it is empty.
    pub fn try_from_vec(from: Vec<T>) -> (r: Result<Self, Error>)
        ensures
            from@.len() == 0 ==> (r matches Err(e)
                && e matches Error::ValidationError(_)),
            from@.len() > 0 ==> (r matches Ok(v) && v.elements() == from@),
    {
        if from.len() == 0 {
            Err(Error::shape("Vector must not be empty"))
        } else {
            Ok(NonEmptyVec { inner: from })
        }
    }

    /// Wrap a single element.
    pub fn singleton(element: T) -> (r: Self)
        ensures
            r.elements() == seq![element],
    {
        let mut inner: Vec<T> = Vec::new();
        inner.push(element);
        NonEmptyVec { inner }
    }

    /// The first element; one always exists.
    pub fn first(&self) -> (r: &T)
        ensures
            self.elements().len() >= 1,
            *r == self.elements()[0],
    {
        proof {
            use_type_invariant(self);
        }
        &self.inner[0]
    }

    /// How many elements are held; never zero.
    pub fn len(&self) -> (r: usize)
        ensures
            r == self.elements().len(),
            r >= 1,
    {
        proof {
            use_type_invariant(self);
        }
        self.inner.len()
    }

    /// The element at `i`.
    pub fn get(&self, i: usize) -> (r: &T)
        requires
            i < self.elements().len(),
        ensures
            *r == self.elements()[i as int],
    {
        &self.inner[i]
    }

    /// Give the elements up as a plain vector; it is never empty.
    pub fn into_vec(self) -> (r: Vec<T>)
        ensures
            r@ == self.elements(),
            r@.len() >= 1,
    {
        proof {
            use_type_invariant(&self);
        }
        self.inner
    }
}

impl<T: Clone> Clone for NonEmptyVec<T> {
    fn clone(&self) -> (r: Self)
        ensures
            r.elements().len() == self.elements().len(),
    {
        proof {
            use_type_invariant(self);
        }
        NonEmptyVec { inner: self.inner.clone() }
    }
}

/// A field that decodes from either a bare value or a non-empty list, and
/// remembers which of the two shapes it was built from.
#[derive(Clone, Debug, PartialEq, Eq)]
pub enum OneToN<T> {
    /// Built from a bare value.
    One(T),
    /// Built from a non-empty list.
    N(NonEmptyVec<T>),
}

impl<T> OneToN<T> {
    /// The elements, in order; at least one is always present.
    pub open spec fn elements(self) -> Seq<T> {
        match self {
            OneToN::One(t) => seq![t],
            OneToN::N(nev) => nev.elements(),
        }
    }

    /// Wrap a list, failing with a shape error when it is empty.
    pub fn try_from_vec(from: Vec<T>) -> (r: Result<Self, Error>)
        ensures
            from@.len() == 0 ==> (r matches Err(e)
                && e matches Error::ValidationError(_)),
            from@.len() > 0 ==> (r matches Ok(v) && v.elements() == from@
                && v matches OneToN::N(_)),
    {
        match NonEmptyVec::try_from_vec(from) {
            Ok(nev) => Ok(OneToN::N(nev)),
            Err(e) => Err(e),
        }
    }

    /// The first element; one always exists.
    pub fn first(&self) -> (r: &T)
        ensures
            self.elements().len() >= 1,
            *r == self.elements()[0],
    {
        match self {
            OneToN::One(t) => t,
            OneToN::N(nev) => nev.first(),
        }
    }

    /// How many elements are held; never zero.
    pub fn len(&self) -> (r: usize)
        ensures
            r == self.elements().len(),
            r >= 1,
    {
        match self {
            OneToN::One(_) => 1,
            OneToN::N(nev) => nev.len(),
        }
    }

    /// The element at `i`.
    pub fn get(&self, i: usize) -> (r: &T)
        requires
            i < self.elements().len(),
        ensures
            *r == self.elements()[i as int],
    {
        match self {
            OneToN::One(t) => t,
            OneToN::N(nev) => nev.get(i),
        }
    }
}

impl<T> From<T> for OneToN<T> {
    /// A bare value becomes the single-element shape.
    fn from(t: T) -> (r: Self)
        ensures
            r == OneToN::One(t),
    {
        OneToN::One(t)
    }
}

impl<T> vstd::std_specs::convert::FromSpecImpl<T> for OneToN<T> {
    open spec fn obeys_from_spec() -> bool {
        true
    }

    open spec fn from_spec(t: T) -> Self {
        OneToN::One(t)
    }
}

/// A field that may be absent, hold a bare value, or hold a list (possibly
/// empty). Absence and an empty list are equivalent for presence checks but
/// are represented apart, so an encoder can reproduce the decoded shape.
/// A parent encoder omits the field whenever `is_empty` reports true; the
/// container therefore cannot stand at the root of a message, where there is
/// no enclosing structure to omit it from.
#[derive(Clone, Debug, PartialEq, Eq)]
pub enum ZeroToN<T> {
    /// The field was not given at all.
    Absent,
    /// The field held a bare value.
    One(T),
    /// The field held a list, which may be empty.
    N(Vec<T>),
}

impl<T> ZeroToN<T> {
    /// The elements, in order.
    pub open spec fn elements(self) -> Seq<T> {
        match self {
            ZeroToN::Absent => Seq::empty(),
            ZeroToN::One(t) => seq![t],
            ZeroToN::N(v) => v@,
        }
    }

    /// Whether no element is present: exactly in the absent state and on an
    /// empty list. A parent encoder omits the field in either case.
    pub fn is_empty(&self) -> (r: bool)
        ensures
            r == (*self matches ZeroToN::Absent
                || (*self matches ZeroToN::N(v) && v@.len() == 0)),
            r == (self.elements().len() == 0),
    {
        match self {
            ZeroToN::Absent => true,
            ZeroToN::One(_) => false,
            ZeroToN::N(v) => v.len() == 0,
        }
    }

    /// The first element, if any is present.
    pub fn first(&self) -> (r: Option<&T>)
        ensures
            match r {
                Some(t) => self.elements().len() > 0 && *t == self.elements()[0],
                None => self.elements().len() == 0,
            },
    {
        match self {
            ZeroToN::Absent => None,
            ZeroToN::One(t) => Some(t),
            ZeroToN::N(v) => {
                if v.len() == 0 {
                    None
                } else {
                    Some(&v[0])
                }
            },
        }
    }

    /// How many elements are held.
    pub fn len(&self) -> (r: usize)
        ensures
            r == self.elements().len(),
    {
        match self {
            ZeroToN::Absent => 0,
            ZeroToN::One(_) => 1,
            ZeroToN::N(v) => v.len(),
        }
    }

    /// The element at `i`.
    pub fn get(&self, i: usize) -> (r: &T)
        requires
            i < self.elements().len(),
        ensures
            *r == self.elements()[i as int],
    {
        match self {
            ZeroToN::Absent => unreached(),
            ZeroToN::One(t) => t,
            ZeroToN::N(v) => &v[i],
        }
    }
}

impl<T> From<Option<T>> for ZeroToN<T> {
    /// An absent optional becomes the absent state; a present one, the bare
    /// shape.
    fn from(from: Option<T>) -> (r: Self)
        ensures
            r == match from {
                Some(t) => ZeroToN::One(t),
                None => ZeroToN::Absent,
            },
    {
        match from {
            Some(t) => ZeroToN::One(t),
            None => ZeroToN::Absent,
        }
    }
}

impl<T> vstd::std_specs::convert::FromSpecImpl<Option<T>> for ZeroToN<T> {
    open spec fn obeys_from_spec() -> bool {
        true
    }

    open spec fn from_spec(from: Option<T>) -> Self {
        match from {
            Some(t) => ZeroToN::One(t),
            None => ZeroToN::Absent,
        }
    }
}

impl<T> From<Vec<T>> for ZeroToN<T> {
    /// A list keeps the list shape, even when empty.
    fn from(from: Vec<T>) -> (r: Self)
        ensures
            r == ZeroToN::N(from),
    {
        ZeroToN::N(from)
    }
}

impl<T> vstd::std_specs::convert::FromSpecImpl<Vec<T>> for ZeroToN<T> {
    open spec fn obeys_from_spec() -> bool {
        true
    }

    open spec fn from_spec(from: Vec<T>) -> Self {
        ZeroToN::N(from)
    }
}

} // verus!
