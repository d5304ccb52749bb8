//! Exceptions: the text the runtime formats an exception into.

use vstd::prelude::*;

verus! {

/// Whether `k` is where the C string held in `buffer` ends: at its first
/// NUL byte, or at the end of the buffer when it holds none.
pub open spec fn c_string_end(buffer: Seq<u8>, k: int) -> bool {
    &&& 0 <= k <= buffer.len()
    &&& k == buffer.len() || buffer[k] == 0
    &&& forall|j: int| 0 <= j < k ==> #[trigger] buffer[j] != 0
}

/// The C string held in a buffer the runtime wrote an exception's text into:
/// its bytes up to the first NUL, or all of them when the text filled the
/// buffer without room for a terminator.
pub fn until_nul(buffer: &Vec<u8>) -> (r: Vec<u8>)
    ensures
        c_string_end(buffer@, r@.len() as int),
        r@ == buffer@.subrange(0, r@.len() as int),
{
    let mut out: Vec<u8> = Vec::new();
    let mut i: usize = 0;
    while i < buffer.len() && buffer[i] != 0
        invariant
            i <= buffer@.len(),
            out@ == buffer@.subrange(0, i as int),
            forall|j: int| 0 <= j < i ==> #[trigger] buffer@[j] != 0,
        decreases buffer@.len() - i,
    {
        out.push(buffer[i]);
        assert(buffer@.subrange(0, i + 1) =~= buffer@.subrange(0, i as int).push(buffer@[i as int]));
        i = i + 1;
    }
    out
}

} // verus!
