use vstd::prelude::*;

use crate::buffer::bytes_clone;
use crate::buffer::bytes_eq;
use crate::buffer::bytes_from_vec;
use crate::buffer::bytes_len;
use crate::buffer::bytes_view;

verus! {

/// An opaque, already-encoded byte buffer: either sample data or a
/// serialized key, produced by the codec stage above this crate. The
/// buffer is never mutated after construction; duplication shares the
/// underlying reference-counted memory instead of copying it.
#[derive(Debug)]
pub struct SerializedPayload {
    pub value: bytes::Bytes,
}

impl View for SerializedPayload {
    type V = Seq<u8>;

    open spec fn view(&self) -> Seq<u8> {
        bytes_view(self.value)
    }
}

impl SerializedPayload {
    pub fn new(value: bytes::Bytes) -> (r: Self)
        ensures
            r@ == bytes_view(value),
    {
        SerializedPayload { value }
    }

    pub fn from_vec(v: Vec<u8>) -> (r: Self)
        ensures
            r@ == v@,
    {
        SerializedPayload { value: bytes_from_vec(v) }
    }

    pub fn len(&self) -> (r: usize)
        ensures
            r == self@.len(),
    {
        bytes_len(&self.value)
    }
}

impl Clone for SerializedPayload {
    fn clone(&self) -> (r: Self)
        ensures
            r@ == self@,
    {
        SerializedPayload { value: bytes_clone(&self.value) }
    }
}

impl PartialEq for SerializedPayload {
    fn eq(&self, other: &Self) -> (r: bool) {
        bytes_eq(&self.value, &other.value)
    }
}

impl Eq for SerializedPayload {}

impl vstd::std_specs::cmp::PartialEqSpecImpl for SerializedPayload {
    open spec fn obeys_eq_spec() -> bool {
        true
    }

    open spec fn eq_spec(&self, other: &Self) -> bool {
        self@ == other@
    }
}

} // verus!
