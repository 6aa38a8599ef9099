use vstd::prelude::*;

verus! {

/// Lifecycle classification of a sample for a keyed instance: a live
/// update, or one of the two ways an instance leaves the live set.
///
/// The two disposal values are produced by the change-kind classification
/// stage above this crate; this crate carries them through unchanged.
#[derive(Clone, Copy, Debug, PartialEq, Eq, Structural)]
pub enum ChangeKind {
    Alive,
    Disposed,
    Unregistered,
}

} // verus!
