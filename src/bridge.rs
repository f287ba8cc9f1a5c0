//! What the allocation bridge decides before it copies a buffer out to the
//! caller: how many bytes to allocate, and what a packed string holds.
use vstd::prelude::*;

verus! {

/// The byte size of a foreign copy of `len` elements of `elem_size` bytes,
/// or `None` where no allocation is made: an empty buffer, a zero-sized
/// element, or a size beyond `usize`. An empty buffer is never handed out
/// as a live pointer.
pub fn copy_size(len: usize, elem_size: usize) -> (r: Option<usize>)
    ensures
        r is None <==> (len == 0 || elem_size == 0 || len * elem_size > usize::MAX),
        r matches Some(n) ==> n == len * elem_size,
{
    if len == 0 || elem_size == 0 {
        return None;
    }
    len.checked_mul(elem_size)
}

/// Whether a byte string holds a NUL byte.
pub open spec fn has_nul(b: Seq<u8>) -> bool {
    exists|i: int| 0 <= i < b.len() && b[i] == 0
}

/// The bytes of a NUL-terminated foreign string holding `b`, or `None` when
/// `b` itself holds a NUL (the string would end early).
pub fn pack_string(b: &[u8]) -> (r: Option<Vec<u8>>)
    ensures
        r is None <==> has_nul(b@),
        r matches Some(v) ==> v@ == b@.push(0u8),
{
    let mut out: Vec<u8> = Vec::new();
    let mut i: usize = 0;
    while i < b.len()
        invariant
            i <= b@.len(),
            out@ == b@.subrange(0, i as int),
            forall|j: int| 0 <= j < i ==> b@[j] != 0,
        decreases b@.len() - i,
    {
        if b[i] == 0 {
            return None;
        }
        out.push(b[i]);
        i = i + 1;
    }
    assert(out@ == b@);
    out.push(0u8);
    Some(out)
}

} // verus!
