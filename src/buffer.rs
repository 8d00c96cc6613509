use vstd::prelude::*;
use ffi_support::ByteBuffer;

verus! {

#[verifier::external_type_specification]
#[verifier::external_body]
pub struct ExByteBuffer(ffi_support::ByteBuffer);

/// The bytes that a buffer handed across the boundary holds.
pub uninterp spec fn buffer_bytes(b: ByteBuffer) -> Seq<u8>;

/// Relies on `ffi_support::ByteBuffer::new_with_size`: a buffer of `size`
/// zero bytes. It asserts `size < i64::MAX`.
#[verifier::external_body]
fn zeroed_buffer(size: usize) -> (r: ByteBuffer)
    requires
        size < i64::MAX,
    ensures
        buffer_bytes(r) == Seq::new(size as nat, |i: int| 0u8),
{
    ByteBuffer::new_with_size(size)
}

/// A buffer size that cannot be served.
pub enum BufferSizeError {
    /// Zero or negative.
    NotPositive(i64),
    /// Beyond what a buffer's length can hold on this machine.
    TooLarge(i64),
}

/// Whether a buffer of `size` bytes can be made here.
pub open spec fn size_allowed(size: i64) -> bool {
    0 < size < i64::MAX && size <= usize::MAX
}

/// A fresh buffer of exactly `size` zero bytes, for the other side to fill
/// with an encoded response.
pub fn allocate_buffer(size: i64) -> (r: Result<ByteBuffer, BufferSizeError>)
    ensures
        r is Ok <==> size_allowed(size),
        r matches Ok(b) ==> buffer_bytes(b) == Seq::new(size as nat, |i: int| 0u8),
        r matches Err(e) ==> (e is NotPositive <==> size <= 0),
        r matches Err(BufferSizeError::NotPositive(s)) ==> s == size,
        r matches Err(BufferSizeError::TooLarge(s)) ==> s == size,
{
    if size <= 0 {
        return Err(BufferSizeError::NotPositive(size));
    }
    if size == i64::MAX || size as u64 > usize::MAX as u64 {
        return Err(BufferSizeError::TooLarge(size));
    }
    Ok(zeroed_buffer(size as usize))
}

} // verus!
