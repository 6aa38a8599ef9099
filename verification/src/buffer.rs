use vstd::prelude::*;

verus! {

/// `bytes::Bytes` is the reference-counted, immutable byte buffer that
/// payloads and serialized keys are carried in. It is declared opaque here;
/// its contents are modeled by `bytes_view`.
#[verifier::external_type_specification]
#[verifier::external_body]
pub struct ExBytes(bytes::Bytes);

/// The sequence of bytes a `bytes::Bytes` buffer holds.
pub uninterp spec fn bytes_view(b: bytes::Bytes) -> Seq<u8>;

/// Relies on `bytes::Bytes::len`: it returns the number of bytes the
/// buffer contains.
#[verifier::external_body]
pub(crate) fn bytes_len(b: &bytes::Bytes) -> (r: usize)
    ensures
        r == bytes_view(*b).len(),
{
    b.len()
}

/// Relies on `Clone` for `bytes::Bytes`: the clone shares the same
/// underlying memory, so it holds the same bytes as the original.
#[verifier::external_body]
pub(crate) fn bytes_clone(b: &bytes::Bytes) -> (r: bytes::Bytes)
    ensures
        bytes_view(r) == bytes_view(*b),
{
    b.clone()
}

/// Relies on `PartialEq` for `bytes::Bytes`: buffers compare equal exactly
/// when their contents compare equal, byte for byte.
#[verifier::external_body]
pub(crate) fn bytes_eq(a: &bytes::Bytes, b: &bytes::Bytes) -> (r: bool)
    ensures
        r == (bytes_view(*a) == bytes_view(*b)),
{
    a == b
}

/// Relies on `From<Vec<u8>>` for `bytes::Bytes`: the buffer takes over the
/// vector's contents unchanged.
#[verifier::external_body]
pub(crate) fn bytes_from_vec(v: Vec<u8>) -> (r: bytes::Bytes)
    ensures
        bytes_view(r) == v@,
{
    bytes::Bytes::from(v)
}

} // verus!
