use vstd::prelude::*;

use crate::metadata::Metadata;
use crate::registry::{entry_or_empty, Registry};

verus! {

/// Why playback could not be started or advanced for a guild.
#[derive(Clone, Debug, PartialEq, Eq)]
pub enum PlayError {
    /// Nothing is left to play for this guild. A control-flow signal
    /// consumed by the track-end reaction, never a user-visible failure.
    EmptyPlaylist(u64),
    /// The requested audio could not be resolved (bad address, network
    /// failure, unsupported source). Reported to the user, never retried.
    Resolution,
    /// The voice backend rejected a start or disconnect command, e.g. no
    /// voice channel joined or permission denied.
    Backend,
}

impl PlayError {
    /// Whether this is the exhaustion signal rather than a real failure.
    pub fn is_empty_playlist(&self) -> (r: bool)
        ensures
            r == (self is EmptyPlaylist),
    {
        match self {
            PlayError::EmptyPlaylist(_) => true,
            _ => false,
        }
    }
}

/// Advance playback for one guild: under the registry's per-guild
/// exclusivity, remove the oldest queued item and hand it back as the item
/// the voice backend must start next.
///
/// `Err(EmptyPlaylist)` is the "nothing left to play" signal, not a
/// failure; the registry keeps the guild's (empty) entry either way. This
/// is the single path through which playback is started or advanced, so
/// two call sites can never race to start two sessions for one guild.
pub fn advance(registry: &mut Registry, guild_id: u64) -> (r: Result<Metadata, PlayError>)
    ensures
        entry_or_empty(old(registry)@, guild_id).len() == 0 ==> r == Err::<Metadata, PlayError>(
            PlayError::EmptyPlaylist(guild_id),
        ) && final(registry)@ == old(registry)@.insert(guild_id, Seq::<Metadata>::empty()),
        entry_or_empty(old(registry)@, guild_id).len() > 0 ==> r == Ok::<Metadata, PlayError>(
            entry_or_empty(old(registry)@, guild_id)[0],
        ) && final(registry)@ == old(registry)@.insert(
            guild_id,
            entry_or_empty(old(registry)@, guild_id).drop_first(),
        ),
{
    match registry.pop_front(guild_id) {
        Some(item) => Ok(item),
        None => Err(PlayError::EmptyPlaylist(guild_id)),
    }
}

/// Enqueue one resolved item for a guild: append it to the guild's
/// playlist and, when no playback session is active, advance so the guild
/// starts playing. Returns the item the backend must start, or `None` when
/// a session is already running and nothing may be started.
///
/// `session_active` is the backend's answer to "is this guild playing
/// right now", queried by the caller at call time; it is never cached.
pub fn enqueue(registry: &mut Registry, guild_id: u64, item: Metadata, session_active: bool) -> (r:
    Option<Metadata>)
    ensures
        session_active ==> r is None && final(registry)@ == old(registry)@.insert(
            guild_id,
            entry_or_empty(old(registry)@, guild_id).push(item),
        ),
        !session_active ==> r == Some(entry_or_empty(old(registry)@, guild_id).push(item)[0])
            && final(registry)@ == old(registry)@.insert(
            guild_id,
            entry_or_empty(old(registry)@, guild_id).push(item).drop_first(),
        ),
{
    registry.push_back(guild_id, item);
    if session_active {
        None
    } else {
        match advance(registry, guild_id) {
            Ok(next) => Some(next),
            Err(_) => None,
        }
    }
}

} // verus!
