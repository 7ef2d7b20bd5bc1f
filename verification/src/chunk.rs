//! Chunks of file content, held as `bytes::Bytes`.

use bytes::Bytes;
use vstd::prelude::*;

verus! {

/// `bytes::Bytes`: a cheaply cloneable, immutable run of bytes.
#[verifier::external_type_specification]
#[verifier::external_body]
pub struct ExBytes(bytes::Bytes);

/// The bytes that a chunk holds, first to last.
pub uninterp spec fn chunk_bytes(chunk: bytes::Bytes) -> Seq<u8>;

/// `bytes::Bytes::len` returns how many bytes the chunk holds.
pub assume_specification[ bytes::Bytes::len ](chunk: &bytes::Bytes) -> (n: usize)
    ensures
        n == chunk_bytes(*chunk).len(),
;

/// `bytes::Bytes::copy_from_slice` makes a chunk that holds the bytes of the
/// slice, in their order.
pub assume_specification[ bytes::Bytes::copy_from_slice ](data: &[u8]) -> (chunk: bytes::Bytes)
    ensures
        chunk_bytes(chunk) == data@,
;

/// The bytes of several chunks, one after the other.
pub open spec fn concat(chunks: Seq<Bytes>) -> Seq<u8>
    decreases chunks.len(),
{
    if chunks.len() == 0 {
        Seq::empty()
    } else {
        concat(chunks.drop_last()) + chunk_bytes(chunks.last())
    }
}

} // verus!
