//! Fallible heap allocation helpers.

use vstd::prelude::*;

verus! {

/// Error returned when heap allocation fails.
#[derive(Debug, Clone, Copy)]
pub struct AllocError;

/// Heap-allocated box.
pub type HeapBox<T> = Box<T>;

/// Growable vector.
pub type HeapVec<T> = Vec<T>;

/// Box a value on the heap.
pub fn heap_box<T>(val: T) -> (r: HeapBox<T>)
    ensures
        *r == val,
{
    Box::new(val)
}

/// Box a value on the heap. The allocator aborts when memory runs out, so this
/// never returns an error.
pub fn heap_box_try<T>(val: T) -> (r: Result<HeapBox<T>, AllocError>)
    ensures
        r is Ok,
        *r->Ok_0 == val,
{
    Ok(Box::new(val))
}

/// Box a copy of `*src`.
pub fn heap_box_copy_from<T: Copy>(src: &T) -> (r: Result<HeapBox<T>, AllocError>)
    ensures
        r is Ok,
        *r->Ok_0 == *src,
{
    Ok(Box::new(*src))
}

/// An empty vector with room for `cap` items.
pub fn heap_vec_with_capacity<T>(cap: usize) -> (r: Result<HeapVec<T>, AllocError>)
    ensures
        r is Ok,
        r->Ok_0@ == Seq::<T>::empty(),
{
    Ok(Vec::with_capacity(cap))
}

/// Push a value onto a vector. The allocator aborts when memory runs out, so
/// this never returns an error.
pub fn heap_vec_push<T>(v: &mut HeapVec<T>, val: T) -> (r: Result<(), AllocError>)
    ensures
        r is Ok,
        final(v)@ == old(v)@.push(val),
{
    v.push(val);
    Ok(())
}

/// Remove and return the front element of a vector, or `None` if it is empty.
pub fn heap_vec_remove_front<T>(v: &mut HeapVec<T>) -> (r: Option<T>)
    ensures
        old(v)@.len() == 0 ==> r is None && final(v)@ == old(v)@,
        old(v)@.len() > 0 ==> r == Some(old(v)@[0]) && final(v)@ == old(v)@.remove(0),
{
    if v.len() == 0 {
        None
    } else {
        Some(v.remove(0))
    }
}

} // verus!
