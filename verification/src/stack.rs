use arrayvec::ArrayVec;
use vstd::prelude::*;

verus! {

#[verifier::external_type_specification]
#[verifier::external_body]
#[verifier::reject_recursive_types(T)]
pub struct ExArrayVec<T, const CAP: usize>(ArrayVec<T, CAP>);

/// The return addresses held by a call stack of capacity 16, bottom first.
pub uninterp spec fn stack_contents(s: ArrayVec<u16, 16>) -> Seq<u16>;

/// `ArrayVec::new`: an empty vector.
#[verifier::external_body]
pub(crate) fn stack_new() -> (s: ArrayVec<u16, 16>)
    ensures
        stack_contents(s) == Seq::<u16>::empty(),
{
    ArrayVec::new()
}

/// `ArrayVec::clone`: a vector of the same elements (`u16` clones are copies).
#[verifier::external_body]
pub(crate) fn stack_clone(s: &ArrayVec<u16, 16>) -> (c: ArrayVec<u16, 16>)
    ensures
        stack_contents(c) == stack_contents(*s),
{
    s.clone()
}

/// `ArrayVec::len`: the number of elements, never above the capacity.
#[verifier::external_body]
pub(crate) fn stack_len(s: &ArrayVec<u16, 16>) -> (n: usize)
    ensures
        n == stack_contents(*s).len(),
        n <= 16,
{
    s.len()
}

/// `ArrayVec::push`: appends at the end; it panics when the vector is full, which
/// `requires` rules out.
#[verifier::external_body]
pub(crate) fn stack_push(s: &mut ArrayVec<u16, 16>, value: u16)
    requires
        stack_contents(*old(s)).len() < 16,
    ensures
        stack_contents(*final(s)) == stack_contents(*old(s)).push(value),
{
    s.push(value)
}

/// `ArrayVec::pop`: removes and returns the last element, or returns `None` and changes
/// nothing when the vector is empty.
#[verifier::external_body]
pub(crate) fn stack_pop(s: &mut ArrayVec<u16, 16>) -> (r: Option<u16>)
    ensures
        stack_contents(*old(s)).len() == 0 ==> r is None && stack_contents(*final(s))
            == stack_contents(*old(s)),
        stack_contents(*old(s)).len() > 0 ==> r == Some(stack_contents(*old(s)).last())
            && stack_contents(*final(s)) == stack_contents(*old(s)).drop_last(),
{
    s.pop()
}

} // verus!
