//! Managed arrays: single-dimensional zero-based (SZ) arrays, and bounded
//! multidimensional (MD) arrays of a rank fixed at the type level.

use crate::reference::{NonNullRef, Ref};
use std::marker::PhantomData;
use vstd::prelude::*;

verus! {

/// Type code of a bounded, possibly multidimensional, array class.
pub const TYPE_ARRAY: u32 = 0x14;

/// Type code of a single-dimensional zero-based array class.
pub const TYPE_SZARRAY: u32 = 0x1d;

/// Array rank, carried at the type level.
///
/// The runtime supports ranks from 1 to 255 inclusive.
#[derive(Clone, Copy)]
pub struct Rank<const R: usize>;

/// Array handle: an array of `E` of shape `S` (`()` for SZ, `Rank<R>` for MD).
pub type Il2CppArray<A, E, S> = NonNullRef<A, PhantomData<(E, S)>>;

/// SZ array handle.
pub type Il2CppSzArray<A, E> = Il2CppArray<A, E, ()>;

/// MD array handle of rank `R`.
pub type Il2CppMdArray<A, E, const R: usize> = Il2CppArray<A, E, Rank<R>>;

/// Whether an array is SZ, from its bounds pointer: SZ arrays have none.
pub fn is_sz<B>(bounds: Ref<B, ()>) -> (r: bool)
    ensures
        r == (bounds@ == 0),
{
    bounds.is_null()
}

/// Downcasts an array to an SZ array when its bounds pointer is null.
pub fn try_as_sz<A, E, S, B>(array: Il2CppArray<A, E, S>, bounds: Ref<B, ()>) -> (r: Option<
    Il2CppSzArray<A, E>,
>)
    ensures
        r is Some <==> bounds@ == 0,
        r matches Some(a) ==> a@ == array@,
{
    if is_sz(bounds) {
        Some(array.retag())
    } else {
        None
    }
}

/// Whether element `index` of an array of `len` elements may be read or
/// written as an SZ element: the array must be SZ (no bounds pointer) and
/// the index below its length.
pub fn sz_index_valid<B>(bounds: Ref<B, ()>, index: usize, len: usize) -> (r: bool)
    ensures
        r == (bounds@ == 0 && index < len),
{
    is_sz(bounds) && index < len
}

/// Whether an array class may be used to allocate an SZ array: it must be of
/// the SZ type and of rank 1.
pub fn sz_class_valid(type_code: u32, class_rank: u8) -> (r: bool)
    ensures
        r == (type_code == TYPE_SZARRAY && class_rank == 1),
{
    type_code == TYPE_SZARRAY && class_rank == 1
}

/// Whether an MD array of rank `R` may be allocated from an array class with
/// the given type code and rank, and the given per-dimension lower bounds.
///
/// The class must be a bounded array class of rank `R`, and a rank-1 array
/// must not start at `0`: the runtime would make an SZ array of it.
pub fn md_request_valid<const R: usize>(
    type_code: u32,
    class_rank: u8,
    lower_bounds: &[usize; R],
) -> (r: bool)
    ensures
        r == (type_code == TYPE_ARRAY && class_rank as usize == R && R >= 1 && (R > 1
            || lower_bounds@[0] != 0)),
{
    if type_code != TYPE_ARRAY || class_rank as usize != R || R == 0 {
        return false;
    }
    R > 1 || lower_bounds[0] != 0
}

/// The rank to ask the runtime for when looking up the MD array class of
/// rank `R`; there is none for rank `0`.
pub fn bounded_class_rank<const R: usize>() -> (r: Option<u32>)
    ensures
        r == (if R != 0 {
            Some(R as u32)
        } else {
            None::<u32>
        }),
{
    if R != 0 {
        Some(R as u32)
    } else {
        None
    }
}

/// Addresses of the `R` per-dimension bound records of an MD array, which
/// lie one after another, `stride` bytes apart, from `first`; `None` when the
/// array's rank is not `R`.
pub fn bound_addresses<B, const R: usize>(rank: u8, first: NonNullRef<B, ()>, stride: usize) -> (r:
    Option<Vec<NonNullRef<B, ()>>>)
    requires
        first@ + R * stride <= usize::MAX,
    ensures
        r is Some <==> rank as usize == R,
        r matches Some(v) ==> v@.len() == R && forall|i: int|
            0 <= i < R ==> #[trigger] v@[i]@ == first@ + i * stride,
{
    if rank as usize != R {
        return None;
    }
    let base = first.as_ptr();
    let mut out: Vec<NonNullRef<B, ()>> = Vec::new();
    let mut i: usize = 0;
    while i < R
        invariant
            i <= R,
            base == first@,
            base != 0,
            base + R * stride <= usize::MAX,
            out@.len() == i,
            forall|k: int| 0 <= k < i ==> #[trigger] out@[k]@ == base + k * stride,
        decreases R - i,
    {
        assert(i * stride <= R * stride) by (nonlinear_arith)
            requires
                i < R,
        ;
        let offset = i * stride;
        let addr = base + offset;
        match NonNullRef::from_ptr(addr) {
            Some(n) => out.push(n),
            None => {
                assert(false);
            },
        }
        i = i + 1;
    }
    Some(out)
}

} // verus!
