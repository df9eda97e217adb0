use vstd::prelude::*;

use crate::config::{store_ensured, ConfigStore};
use crate::engine::{advance, PlayError};
use crate::metadata::Metadata;
use crate::registry::{entry_or_empty, Registry};

verus! {

/// What the track-end reaction asks the voice backend to do next.
#[derive(Clone, Debug, PartialEq, Eq)]
pub enum TrackEndAction {
    /// Begin streaming this item and watch for its completion.
    Start(Metadata),
    /// Tear down the guild's session: the playlist ran out and the guild
    /// asks for auto-leave.
    Disconnect,
    /// Keep the session as it is; nothing is started and nothing is torn
    /// down.
    Stay,
}

/// The pure reaction rule of the track-end handler: what one advance
/// outcome and the guild's auto-leave switch ask of the backend.
///
/// A next item is always started. Exhaustion leads to a disconnect exactly
/// when auto-leave is on. Any other advance failure is terminal for the
/// session's continuation — logged by the caller, never retried, and never
/// a reason to disconnect.
pub fn reaction(outcome: Result<Metadata, PlayError>, auto_leave: bool) -> (a: TrackEndAction)
    ensures
        (outcome matches Ok(item) ==> a == TrackEndAction::Start(item)),
        (outcome matches Err(e) ==> {
            if e is EmptyPlaylist {
                a == (if auto_leave {
                    TrackEndAction::Disconnect
                } else {
                    TrackEndAction::Stay
                })
            } else {
                a == TrackEndAction::Stay
            }
        }),
{
    match outcome {
        Ok(item) => TrackEndAction::Start(item),
        Err(PlayError::EmptyPlaylist(_)) => {
            if auto_leave {
                TrackEndAction::Disconnect
            } else {
                TrackEndAction::Stay
            }
        },
        Err(_) => TrackEndAction::Stay,
    }
}

/// Per-session completion callback: bound once when an item starts and
/// invoked exactly once when the voice backend reports that the item has
/// finished. Captures only the guild identifier; all shared state is
/// handed in by the caller, so nothing here goes stale across reconnects.
pub struct TrackEndHandler {
    /// The guild whose session this handler watches.
    pub guild_id: u64,
}

impl TrackEndHandler {
    /// React to the backend's track-end signal: advance playback and say
    /// what the backend must do next.
    ///
    /// When more items are queued, the oldest is removed and handed back
    /// to start (the configuration store is not touched). When the
    /// playlist is exhausted, the guild's configuration entry is found or
    /// created and its auto-leave switch decides between disconnecting and
    /// staying idle.
    pub fn act(&self, registry: &mut Registry, configs: &mut ConfigStore) -> (a: TrackEndAction)
        ensures
            entry_or_empty(old(registry)@, self.guild_id).len() > 0 ==> a == TrackEndAction::Start(
                entry_or_empty(old(registry)@, self.guild_id)[0],
            ) && final(registry)@ == old(registry)@.insert(
                self.guild_id,
                entry_or_empty(old(registry)@, self.guild_id).drop_first(),
            ) && final(configs)@ == old(configs)@,
            entry_or_empty(old(registry)@, self.guild_id).len() == 0 ==> final(registry)@ == old(
                registry,
            )@.insert(self.guild_id, Seq::<Metadata>::empty()) && final(configs)@ == store_ensured(
                old(configs)@,
                self.guild_id,
            ) && a == (if final(configs)@[self.guild_id].auto_leave {
                TrackEndAction::Disconnect
            } else {
                TrackEndAction::Stay
            }),
    {
        let outcome = advance(registry, self.guild_id);
        let auto_leave = match &outcome {
            Err(PlayError::EmptyPlaylist(_)) => configs.auto_leave(self.guild_id),
            _ => false,
        };
        reaction(outcome, auto_leave)
    }
}

} // verus!
