//! The small vectors of `tinyvec` that hold attribute lists, seen through their contents.
use vstd::prelude::*;

use tinyvec::{ArrayVec, TinyVec};

verus! {

/// A list of classic GLX attributes, held in a `TinyVec<[i32; 4]>` of tinyvec (four
/// items inline, more on the heap).
#[verifier::external_body]
pub struct ClassicAttribs {
    items: TinyVec<[i32; 4]>,
}

#[verifier::external_type_specification]
#[verifier::external_body]
#[verifier::reject_recursive_types(A)]
pub struct ExArrayVec<A>(ArrayVec<A>);

/// The items that a list of classic attributes holds, in order.
pub uninterp spec fn tiny_items(v: ClassicAttribs) -> Seq<i32>;

/// The items that an `ArrayVec<[u32; 12]>` holds, in order.
pub uninterp spec fn array_items(v: ArrayVec<[u32; 12]>) -> Seq<u32>;

/// `TinyVec::new` of tinyvec: an empty vector (inline storage).
#[verifier::external_body]
pub(crate) fn tiny_new() -> (r: ClassicAttribs)
    ensures
        tiny_items(r) == Seq::<i32>::empty(),
{
    ClassicAttribs { items: TinyVec::new() }
}

/// `TinyVec::push` of tinyvec: appends the item, moving to the heap when the inline
/// storage is full; it has no length limit.
#[verifier::external_body]
pub(crate) fn tiny_push(v: &mut ClassicAttribs, x: i32)
    ensures
        tiny_items(*final(v)) == tiny_items(*old(v)).push(x),
{
    v.items.push(x)
}

/// `TinyVec::as_slice` of tinyvec, copied into a `Vec`: the items in order.
#[verifier::external_body]
pub(crate) fn tiny_to_vec(v: &ClassicAttribs) -> (r: Vec<i32>)
    ensures
        r@ == tiny_items(*v),
{
    v.items.as_slice().to_vec()
}

impl ClassicAttribs {
    /// The attributes, in order.
    pub fn to_vec(&self) -> (r: Vec<i32>)
        ensures
            r@ == tiny_items(*self),
    {
        tiny_to_vec(self)
    }
}

/// `ArrayVec::new` of tinyvec: an empty vector of capacity 12.
#[verifier::external_body]
pub(crate) fn array_new() -> (r: ArrayVec<[u32; 12]>)
    ensures
        array_items(r) == Seq::<u32>::empty(),
{
    ArrayVec::new()
}

/// `ArrayVec::push` of tinyvec: appends the item; the source panics when the vector is
/// already full, so the call asks for room.
#[verifier::external_body]
pub(crate) fn array_push(v: &mut ArrayVec<[u32; 12]>, x: u32)
    requires
        array_items(*old(v)).len() < 12,
    ensures
        array_items(*final(v)) == array_items(*old(v)).push(x),
{
    v.push(x)
}

/// `ArrayVec::as_slice` of tinyvec, copied into a `Vec`: the items in order.
#[verifier::external_body]
pub(crate) fn array_to_vec(v: &ArrayVec<[u32; 12]>) -> (r: Vec<u32>)
    ensures
        r@ == array_items(*v),
{
    v.as_slice().to_vec()
}

} // verus!
