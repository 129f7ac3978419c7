//! Frame payloads as `bytes::Bytes`, the buffer type that the transports'
//! channels carry.
use vstd::prelude::*;

verus! {

#[verifier::external_type_specification]
#[verifier::external_body]
pub struct ExBytes(bytes::Bytes);

#[verifier::external_type_specification]
#[verifier::external_body]
pub struct ExBytesMut(bytes::BytesMut);

/// The bytes that a `Bytes` value holds.
pub uninterp spec fn bytes_content(b: bytes::Bytes) -> Seq<u8>;

/// The bytes that a `BytesMut` value holds (its length, not its capacity).
pub uninterp spec fn bytes_mut_content(b: bytes::BytesMut) -> Seq<u8>;

/// `bytes::BytesMut::with_capacity`: an empty buffer. Its capacity is left
/// unsaid. The call panics when the capacity exceeds `isize::MAX`, which
/// `requires` rules out.
#[verifier::external_body]
fn bytes_mut_with_capacity(capacity: usize) -> (b: bytes::BytesMut)
    requires
        capacity <= isize::MAX,
    ensures
        bytes_mut_content(b) == Seq::<u8>::empty(),
{
    bytes::BytesMut::with_capacity(capacity)
}

/// `bytes::BytesMut::extend_from_slice`: appends `data` to the buffer. The
/// call panics when the new length exceeds `isize::MAX`, which `requires`
/// rules out.
#[verifier::external_body]
fn bytes_mut_extend_from_slice(b: &mut bytes::BytesMut, data: &[u8])
    requires
        bytes_mut_content(*old(b)).len() + data@.len() <= isize::MAX,
    ensures
        bytes_mut_content(*final(b)) == bytes_mut_content(*old(b)) + data@,
{
    b.extend_from_slice(data)
}

/// `bytes::BytesMut::freeze`: the same bytes as an immutable `Bytes`.
#[verifier::external_body]
fn bytes_mut_freeze(b: bytes::BytesMut) -> (r: bytes::Bytes)
    ensures
        bytes_content(r) == bytes_mut_content(b),
{
    b.freeze()
}

/// Copies a payload into a fresh `Bytes`, reserving room for a length
/// header in front as the senders do.
pub fn frame_payload(data: &[u8]) -> (b: bytes::Bytes)
    requires
        data.len() + 4 <= isize::MAX,
    ensures
        bytes_content(b) == data@,
{
    let mut buf = bytes_mut_with_capacity(4 + data.len());
    bytes_mut_extend_from_slice(&mut buf, data);
    assert(Seq::<u8>::empty() + data@ =~= data@);
    bytes_mut_freeze(buf)
}

} // verus!
