use vstd::prelude::*;

use crate::buffer::bytes_clone;
use crate::buffer::bytes_view;
use crate::change_kind::ChangeKind;
use crate::key_hash::KeyHash;
use crate::key_hash::KEY_HASH_LENGTH;
use crate::serialized_payload::SerializedPayload;

verus! {

/// Contents of one decoded data submessage (or reassembled fragment set):
/// either a new sample value, or a serialized key, or a key hash. The
/// latter two announce a disposal or unregistration of the keyed instance.
///
/// Exactly one variant is populated; a value is immutable once built.
#[derive(Debug)]
pub enum DDSData {
    Data { serialized_payload: SerializedPayload },
    DisposeByKey { change_kind: ChangeKind, key: SerializedPayload },
    DisposeByKeyHash { change_kind: ChangeKind, key_hash: KeyHash },
}

/// The mathematical shape of a `DDSData` value: the variant tag together
/// with the byte contents of whatever buffer it carries.
pub enum DDSDataView {
    Data { payload: Seq<u8> },
    DisposeByKey { change_kind: ChangeKind, key: Seq<u8> },
    DisposeByKeyHash { change_kind: ChangeKind, key_hash: Seq<u8> },
}

impl View for DDSData {
    type V = DDSDataView;

    open spec fn view(&self) -> DDSDataView {
        match self {
            DDSData::Data { serialized_payload } => DDSDataView::Data {
                payload: serialized_payload@,
            },
            DDSData::DisposeByKey { change_kind, key } => DDSDataView::DisposeByKey {
                change_kind: *change_kind,
                key: key@,
            },
            DDSData::DisposeByKeyHash { change_kind, key_hash } => DDSDataView::DisposeByKeyHash {
                change_kind: *change_kind,
                key_hash: key_hash@,
            },
        }
    }
}

/// The lifecycle classification a sample stands for: a data sample is
/// always a live update; a disposal carries its own kind through.
pub open spec fn spec_change_kind(d: DDSDataView) -> ChangeKind {
    match d {
        DDSDataView::Data { .. } => ChangeKind::Alive,
        DDSDataView::DisposeByKey { change_kind, .. } => change_kind,
        DDSDataView::DisposeByKeyHash { change_kind, .. } => change_kind,
    }
}

/// The number of bytes the wire-level payload of a sample occupies: the
/// carried buffer's length for data and dispose-by-key samples, and the
/// protocol constant `KEY_HASH_LENGTH` for dispose-by-hash samples.
pub open spec fn spec_payload_size(d: DDSDataView) -> nat {
    match d {
        DDSDataView::Data { payload } => payload.len(),
        DDSDataView::DisposeByKey { key, .. } => key.len(),
        DDSDataView::DisposeByKeyHash { .. } => KEY_HASH_LENGTH as nat,
    }
}

impl DDSData {
    /// Builds the representation of a new or updated sample value.
    pub fn new(serialized_payload: SerializedPayload) -> (r: Self)
        ensures
            r@ == (DDSDataView::Data { payload: serialized_payload@ }),
    {
        Self::Data { serialized_payload }
    }

    /// Builds the representation of a disposal identified by the
    /// instance's serialized key.
    pub fn new_disposed_by_key(change_kind: ChangeKind, key: SerializedPayload) -> (r: Self)
        ensures
            r@ == (DDSDataView::DisposeByKey { change_kind, key: key@ }),
    {
        Self::DisposeByKey { change_kind, key }
    }

    /// Builds the representation of a disposal identified by the 16-byte
    /// hash of the instance's key.
    pub fn new_disposed_by_key_hash(change_kind: ChangeKind, key_hash: KeyHash) -> (r: Self)
        ensures
            r@ == (DDSDataView::DisposeByKeyHash { change_kind, key_hash: key_hash@ }),
    {
        Self::DisposeByKeyHash { change_kind, key_hash }
    }

    /// The effective lifecycle classification of this sample.
    pub fn change_kind(&self) -> (r: ChangeKind)
        ensures
            r == spec_change_kind(self@),
    {
        match self {
            DDSData::Data { .. } => ChangeKind::Alive,
            DDSData::DisposeByKey { change_kind, .. } => *change_kind,
            DDSData::DisposeByKeyHash { change_kind, .. } => *change_kind,
        }
    }

    /// The serialized size of this sample's wire-level payload. For a
    /// dispose-by-hash sample this is the protocol constant, never a
    /// measured buffer length.
    pub fn payload_size(&self) -> (r: usize)
        ensures
            r == spec_payload_size(self@),
    {
        match self {
            DDSData::Data { serialized_payload } => serialized_payload.len(),
            DDSData::DisposeByKey { key, .. } => key.len(),
            DDSData::DisposeByKeyHash { .. } => KEY_HASH_LENGTH,
        }
    }

    /// The carried buffer, shared by reference count: the payload of a
    /// data sample, the serialized key of a dispose-by-key sample, and
    /// nothing for a dispose-by-hash sample.
    pub fn data(&self) -> (r: Option<bytes::Bytes>)
        ensures
            match self@ {
                DDSDataView::Data { payload } => (r matches Some(b) && bytes_view(b) == payload),
                DDSDataView::DisposeByKey { key, .. } => (r matches Some(b) && bytes_view(b)
                    == key),
                DDSDataView::DisposeByKeyHash { .. } => r is None,
            },
    {
        match self {
            DDSData::Data { serialized_payload } => Some(bytes_clone(&serialized_payload.value)),
            DDSData::DisposeByKey { key, .. } => Some(bytes_clone(&key.value)),
            DDSData::DisposeByKeyHash { .. } => None,
        }
    }
}

/// For every payload buffer, the payload size of a data sample is that
/// buffer's length.
pub proof fn lemma_payload_size_data(p: Seq<u8>)
    ensures
        spec_payload_size(DDSDataView::Data { payload: p }) == p.len(),
{
}

/// For every kind and key buffer, the payload size of a dispose-by-key
/// sample is the key buffer's length.
pub proof fn lemma_payload_size_dispose_by_key(c: ChangeKind, k: Seq<u8>)
    ensures
        spec_payload_size(DDSDataView::DisposeByKey { change_kind: c, key: k }) == k.len(),
{
}

/// For every kind and hash, the payload size of a dispose-by-hash sample
/// is the protocol constant `KEY_HASH_LENGTH`, independent of the hash's
/// stored contents.
pub proof fn lemma_payload_size_dispose_by_key_hash(c: ChangeKind, h: Seq<u8>)
    ensures
        spec_payload_size(DDSDataView::DisposeByKeyHash { change_kind: c, key_hash: h })
            == KEY_HASH_LENGTH,
{
}

/// Every data sample classifies as a live update, whatever its payload,
/// an empty buffer included.
pub proof fn lemma_change_kind_data(p: Seq<u8>)
    ensures
        spec_change_kind(DDSDataView::Data { payload: p }) == ChangeKind::Alive,
{
}

/// Both disposal shapes pass their carried kind through unchanged, for
/// every kind and every carried buffer.
pub proof fn lemma_change_kind_dispose(c: ChangeKind, k: Seq<u8>, h: Seq<u8>)
    ensures
        spec_change_kind(DDSDataView::DisposeByKey { change_kind: c, key: k }) == c,
        spec_change_kind(DDSDataView::DisposeByKeyHash { change_kind: c, key_hash: h }) == c,
{
}

/// Two representations are equal exactly when their variant tags and the
/// values they carry are equal, over all pairings of the three variants.
pub proof fn lemma_view_eq_structural(a: DDSDataView, b: DDSDataView)
    ensures
        (a == b) <==> (match (a, b) {
            (DDSDataView::Data { payload: pa }, DDSDataView::Data { payload: pb }) => pa == pb,
            (
                DDSDataView::DisposeByKey { change_kind: ca, key: ka },
                DDSDataView::DisposeByKey { change_kind: cb, key: kb },
            ) => ca == cb && ka == kb,
            (
                DDSDataView::DisposeByKeyHash { change_kind: ca, key_hash: ha },
                DDSDataView::DisposeByKeyHash { change_kind: cb, key_hash: hb },
            ) => ca == cb && ha == hb,
            _ => false,
        }),
{
}

impl Clone for DDSData {
    fn clone(&self) -> (r: Self)
        ensures
            r@ == self@,
    {
        match self {
            DDSData::Data { serialized_payload } => DDSData::Data {
                serialized_payload: serialized_payload.clone(),
            },
            DDSData::DisposeByKey { change_kind, key } => DDSData::DisposeByKey {
                change_kind: *change_kind,
                key: key.clone(),
            },
            DDSData::DisposeByKeyHash { change_kind, key_hash } => DDSData::DisposeByKeyHash {
                change_kind: *change_kind,
                key_hash: *key_hash,
            },
        }
    }
}

impl PartialEq for DDSData {
    fn eq(&self, other: &Self) -> (r: bool) {
        match (self, other) {
            (
                DDSData::Data { serialized_payload: a },
                DDSData::Data { serialized_payload: b },
            ) => a == b,
            (
                DDSData::DisposeByKey { change_kind: ca, key: ka },
                DDSData::DisposeByKey { change_kind: cb, key: kb },
            ) => *ca == *cb && ka == kb,
            (
                DDSData::DisposeByKeyHash { change_kind: ca, key_hash: ha },
                DDSData::DisposeByKeyHash { change_kind: cb, key_hash: hb },
            ) => *ca == *cb && ha == hb,
            _ => false,
        }
    }
}

impl Eq for DDSData {}

impl vstd::std_specs::cmp::PartialEqSpecImpl for DDSData {
    open spec fn obeys_eq_spec() -> bool {
        true
    }

    open spec fn eq_spec(&self, other: &Self) -> bool {
        self@ == other@
    }
}

} // verus!
