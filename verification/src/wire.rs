//! The wire shapes of the multiplicity containers. On the wire a `OneToN`
//! or `ZeroToN` field appears as either a bare value or a list, and an
//! empty `ZeroToN` field is omitted altogether; the serializer proper is an
//! external collaborator, so this module pins down only what the library
//! owes it: which shape each container state maps to, what each shape
//! decodes back to, and that the mapping round-trips.

use vstd::prelude::*;
use crate::containers::OneToN;
use crate::containers::ZeroToN;
use crate::error::Error;

verus! {

/// The shape a flexible-multiplicity field takes on the wire.
#[derive(Clone, Debug, PartialEq, Eq)]
pub enum WireShape<T> {
    /// The field held a bare value.
    Bare(T),
    /// The field held a list.
    Sequence(Vec<T>),
}

/// How a `OneToN` maps onto a wire shape: a bare value for the bare state,
/// the element list for the list state.
pub open spec fn one_to_n_encodes<T>(c: OneToN<T>, w: WireShape<T>) -> bool {
    match c {
        OneToN::One(t) => w == WireShape::Bare(t),
        OneToN::N(nev) => w matches WireShape::Sequence(v) && v@ == nev.elements(),
    }
}

/// What a wire shape decodes to as a `OneToN`: a bare value becomes the
/// bare state, a non-empty list the list state, and an empty list fails.
pub open spec fn one_to_n_decodes<T>(w: WireShape<T>, r: Result<OneToN<T>, Error>) -> bool {
    match w {
        WireShape::Bare(t) => r == Ok::<OneToN<T>, Error>(OneToN::One(t)),
        WireShape::Sequence(v) => {
            if v@.len() == 0 {
                r is Err
            } else {
                r matches Ok(c) && c matches OneToN::N(_) && c.elements() == v@
            }
        },
    }
}

/// Encode a `OneToN` field, reproducing the shape it was built from.
pub fn encode_one_to_n<T>(c: OneToN<T>) -> (w: WireShape<T>)
    ensures
        one_to_n_encodes(c, w),
{
    match c {
        OneToN::One(t) => WireShape::Bare(t),
        OneToN::N(nev) => WireShape::Sequence(nev.into_vec()),
    }
}

/// Decode a `OneToN` field from its wire shape, failing with a shape error
/// on an empty list.
pub fn decode_one_to_n<T>(w: WireShape<T>) -> (r: Result<OneToN<T>, Error>)
    ensures
        one_to_n_decodes(w, r),
{
    match w {
        WireShape::Bare(t) => Ok(OneToN::One(t)),
        WireShape::Sequence(v) => OneToN::try_from_vec(v),
    }
}

/// Round trip of a `OneToN`: whatever shape a container encodes to,
/// decoding that shape succeeds and restores the container's shape tag and
/// elements. Every reachable container holds an element — the constructors
/// refuse empty lists — which the last premise records.
pub proof fn lemma_one_to_n_round_trip<T>(
    c: OneToN<T>,
    w: WireShape<T>,
    r: Result<OneToN<T>, Error>,
)
    requires
        one_to_n_encodes(c, w),
        one_to_n_decodes(w, r),
        c.elements().len() > 0,
    ensures
        r matches Ok(d) && d.elements() == c.elements() && ((d matches OneToN::One(_)) == (
        c matches OneToN::One(_))),
{
}

/// Decoding a bare scalar and decoding a one-element list both succeed and
/// both put that scalar first, where `first` finds it.
pub proof fn lemma_decoded_first_element<T>(
    t: T,
    w: WireShape<T>,
    r: Result<OneToN<T>, Error>,
)
    requires
        one_to_n_decodes(w, r),
        w == WireShape::Bare(t) || (w matches WireShape::Sequence(v) && v@ == seq![t]),
    ensures
        r matches Ok(c) && c.elements().len() >= 1 && c.elements()[0] == t,
{
}

/// How a `ZeroToN` maps onto an optional wire shape: the absent state and
/// an empty list are omitted, a bare value stays bare, and a non-empty
/// list stays a list.
pub open spec fn zero_to_n_encodes<T>(c: ZeroToN<T>, w: Option<WireShape<T>>) -> bool {
    match c {
        ZeroToN::Absent => w is None,
        ZeroToN::One(t) => w == Some(WireShape::Bare(t)),
        ZeroToN::N(v) => {
            if v@.len() == 0 {
                w is None
            } else {
                w == Some(WireShape::Sequence(v))
            }
        },
    }
}

/// What an optional wire shape decodes to as a `ZeroToN`: omission becomes
/// the absent state, a bare value the bare state, and a list the list
/// state, empty lists included.
pub open spec fn zero_to_n_decodes<T>(w: Option<WireShape<T>>, r: ZeroToN<T>) -> bool {
    match w {
        None => r == ZeroToN::<T>::Absent,
        Some(WireShape::Bare(t)) => r == ZeroToN::One(t),
        Some(WireShape::Sequence(v)) => r == ZeroToN::N(v),
    }
}

/// Encode a `ZeroToN` field, omitting it when it is empty and reproducing
/// its shape otherwise.
pub fn encode_zero_to_n<T>(c: ZeroToN<T>) -> (w: Option<WireShape<T>>)
    ensures
        zero_to_n_encodes(c, w),
{
    match c {
        ZeroToN::Absent => None,
        ZeroToN::One(t) => Some(WireShape::Bare(t)),
        ZeroToN::N(v) => {
            if v.len() == 0 {
                None
            } else {
                Some(WireShape::Sequence(v))
            }
        },
    }
}

/// Decode a `ZeroToN` field from its optional wire shape; every shape is
/// accepted.
pub fn decode_zero_to_n<T>(w: Option<WireShape<T>>) -> (r: ZeroToN<T>)
    ensures
        zero_to_n_decodes(w, r),
{
    match w {
        None => ZeroToN::Absent,
        Some(WireShape::Bare(t)) => ZeroToN::One(t),
        Some(WireShape::Sequence(v)) => ZeroToN::N(v),
    }
}

/// Round trip of a `ZeroToN`: decoding what a container encodes to
/// restores the container exactly, except for a container that holds an
/// empty list, whose omission on the wire decodes to the absent state.
pub proof fn lemma_zero_to_n_round_trip<T>(
    c: ZeroToN<T>,
    w: Option<WireShape<T>>,
    r: ZeroToN<T>,
)
    requires
        zero_to_n_encodes(c, w),
        zero_to_n_decodes(w, r),
        !(c matches ZeroToN::N(v) && v@.len() == 0),
    ensures
        r == c,
{
}

/// A `ZeroToN` field is omitted from its parent's encoding exactly when it
/// holds no element: in the absent state and on an empty list.
pub proof fn lemma_omitted_iff_empty<T>(c: ZeroToN<T>, w: Option<WireShape<T>>)
    requires
        zero_to_n_encodes(c, w),
    ensures
        (w is None) <==> (c.elements().len() == 0),
{
}

} // verus!
