use vstd::prelude::*;

verus! {

/// One playable item, as the resolution collaborator describes it.
/// Immutable once constructed: the core only copies and moves it.
#[derive(Clone, Debug, PartialEq, Eq)]
pub struct Metadata {
    /// Title reported by the source, when one is known.
    pub title: Option<String>,
    /// Length of the item in milliseconds, when the source reports one.
    pub duration_ms: Option<u64>,
    /// Address of the audio source.
    pub url: String,
    /// Identifier of the user who asked for the item.
    pub requester: u64,
}

} // verus!
