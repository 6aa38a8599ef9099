//! In-memory representation of one application-data sample as it crosses
//! from the wire submessage layer into per-instance cache and lifecycle
//! logic: either a new value, a disposal carrying the serialized key, or a
//! disposal carrying a fixed-width hash of the key.

pub mod buffer;
pub mod change_kind;
pub mod ddsdata;
pub mod key_hash;
pub mod serialized_payload;

pub use change_kind::ChangeKind;
pub use ddsdata::DDSData;
pub use ddsdata::DDSDataView;
pub use key_hash::KeyHash;
pub use key_hash::KEY_HASH_LENGTH;
pub use serialized_payload::SerializedPayload;
