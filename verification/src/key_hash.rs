use vstd::prelude::*;

verus! {

/// Width in bytes of a key hash. This is fixed by the wire protocol's
/// KeyHash parameter and never varies with the size of the key it digests.
pub const KEY_HASH_LENGTH: usize = 16;

/// A fixed-width digest standing in for a full instance key when an
/// instance is disposed or unregistered by hash rather than by key data.
#[derive(Clone, Copy, Debug)]
pub struct KeyHash {
    pub bytes: [u8; 16],
}

impl View for KeyHash {
    type V = Seq<u8>;

    open spec fn view(&self) -> Seq<u8> {
        self.bytes@
    }
}

impl KeyHash {
    pub fn new(bytes: [u8; 16]) -> (r: Self)
        ensures
            r@ == bytes@,
    {
        KeyHash { bytes }
    }
}

impl PartialEq for KeyHash {
    fn eq(&self, other: &Self) -> (r: bool) {
        let mut i: usize = 0;
        while i < KEY_HASH_LENGTH
            invariant
                i <= KEY_HASH_LENGTH,
                forall|j: int| 0 <= j < i ==> self.bytes@[j] == other.bytes@[j],
            decreases KEY_HASH_LENGTH - i,
        {
            if self.bytes[i] != other.bytes[i] {
                assert(self@[i as int] != other@[i as int]);
                return false;
            }
            i = i + 1;
        }
        proof {
            assert(self@ =~= other@);
        }
        true
    }
}

impl Eq for KeyHash {}

impl vstd::std_specs::cmp::PartialEqSpecImpl for KeyHash {
    open spec fn obeys_eq_spec() -> bool {
        true
    }

    open spec fn eq_spec(&self, other: &Self) -> bool {
        self@ == other@
    }
}

} // verus!
