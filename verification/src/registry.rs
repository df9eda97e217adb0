use vstd::prelude::*;

use crate::metadata::Metadata;
use crate::playlist::Playlist;
use std::collections::HashMap;

verus! {

broadcast use vstd::std_specs::hash::group_hash_axioms;

/// The queue a guild holds in the registry, where a guild without an entry
/// holds the empty queue.
pub open spec fn entry_or_empty(m: Map<u64, Seq<Metadata>>, guild_id: u64) -> Seq<Metadata> {
    if m.contains_key(guild_id) {
        m[guild_id]
    } else {
        Seq::<Metadata>::empty()
    }
}

/// What a find-or-create on the registry leaves behind: an untouched map
/// when the guild already has an entry, else the map with an empty playlist
/// added under the guild's key.
pub open spec fn registry_ensured(m: Map<u64, Seq<Metadata>>, guild_id: u64) -> Map<
    u64,
    Seq<Metadata>,
> {
    if m.contains_key(guild_id) {
        m
    } else {
        m.insert(guild_id, Seq::<Metadata>::empty())
    }
}

/// Process-scoped mapping from guild identifier to that guild's playlist.
///
/// At most one playlist exists per guild at any time; entries are created
/// lazily on first use and never deleted, so an exhausted guild keeps its
/// (empty) playlist. Callers that share the registry across tasks serialize
/// access externally; every operation here is one atomic
/// find-or-create-and-act step on a single guild's entry, so two observers
/// of the same absent guild can never both insert.
pub struct Registry {
    entries: HashMap<u64, Playlist>,
}

impl View for Registry {
    type V = Map<u64, Seq<Metadata>>;

    closed spec fn view(&self) -> Map<u64, Seq<Metadata>> {
        Map::new(|g: u64| self.entries@.contains_key(g), |g: u64| self.entries@[g]@)
    }
}

impl Registry {
    /// A fresh registry with no entries.
    pub fn new() -> (r: Registry)
        ensures
            r@ == Map::<u64, Seq<Metadata>>::empty(),
    {
        let r = Registry { entries: HashMap::new() };
        proof {
            assert(r@ =~= Map::<u64, Seq<Metadata>>::empty());
        }
        r
    }

    /// Whether the guild already has a playlist entry.
    pub fn contains(&self, guild_id: u64) -> (r: bool)
        ensures
            r == self@.contains_key(guild_id),
    {
        self.entries.contains_key(&guild_id)
    }

    /// How many guilds have a playlist entry.
    pub fn guild_count(&self) -> (n: usize)
        ensures
            n == self@.len(),
    {
        proof {
            assert(self@.dom() =~= self.entries@.dom());
        }
        self.entries.len()
    }

    /// Find or create the guild's entry; idempotent, and the one way an
    /// entry ever comes into being.
    pub fn ensure_entry(&mut self, guild_id: u64)
        ensures
            final(self)@ == registry_ensured(old(self)@, guild_id),
            final(self)@.contains_key(guild_id),
            final(self)@[guild_id] == entry_or_empty(old(self)@, guild_id),
    {
        if !self.entries.contains_key(&guild_id) {
            self.entries.insert(guild_id, Playlist::new());
        }
        proof {
            assert(self@ =~= registry_ensured(old(self)@, guild_id));
        }
    }

    /// Append an item at the back of the guild's playlist, creating the
    /// entry first when the guild has none.
    pub fn push_back(&mut self, guild_id: u64, item: Metadata)
        ensures
            final(self)@ == old(self)@.insert(
                guild_id,
                entry_or_empty(old(self)@, guild_id).push(item),
            ),
    {
        let mut p = match self.entries.remove(&guild_id) {
            Some(p) => p,
            None => Playlist::new(),
        };
        p.push_back(item);
        self.entries.insert(guild_id, p);
        proof {
            assert(self@ =~= old(self)@.insert(
                guild_id,
                entry_or_empty(old(self)@, guild_id).push(item),
            ));
        }
    }

    /// Remove and return the oldest item of the guild's playlist, creating
    /// the entry first when the guild has none. Returns `None` exactly when
    /// the guild's playlist is empty.
    pub fn pop_front(&mut self, guild_id: u64) -> (r: Option<Metadata>)
        ensures
            entry_or_empty(old(self)@, guild_id).len() == 0 ==> r is None && final(self)@ == old(
                self,
            )@.insert(guild_id, Seq::<Metadata>::empty()),
            entry_or_empty(old(self)@, guild_id).len() > 0 ==> r == Some(
                entry_or_empty(old(self)@, guild_id)[0],
            ) && final(self)@ == old(self)@.insert(
                guild_id,
                entry_or_empty(old(self)@, guild_id).drop_first(),
            ),
    {
        let mut p = match self.entries.remove(&guild_id) {
            Some(p) => p,
            None => Playlist::new(),
        };
        let r = p.pop_front();
        self.entries.insert(guild_id, p);
        proof {
            if entry_or_empty(old(self)@, guild_id).len() == 0 {
                assert(entry_or_empty(old(self)@, guild_id) =~= Seq::<Metadata>::empty());
                assert(self@ =~= old(self)@.insert(guild_id, Seq::<Metadata>::empty()));
            } else {
                assert(self@ =~= old(self)@.insert(
                    guild_id,
                    entry_or_empty(old(self)@, guild_id).drop_first(),
                ));
            }
        }
        r
    }

    /// Find or create the guild's entry, hand it whole to `op` for the one
    /// read-modify-write it performs, keep the playlist `op` returns under
    /// the guild's key, and return `op`'s result.
    ///
    /// Collapsing find-or-create and the entry operation into one step on
    /// `&mut self` is what keeps two tasks that both observe "no entry yet"
    /// from both inserting one: whoever shares the registry serializes these
    /// calls, and each call is then atomic. Entries of other guilds are
    /// untouched, whatever `op` does.
    pub fn with_entry<R, F: FnOnce(Playlist) -> (Playlist, R)>(
        &mut self,
        guild_id: u64,
        op: F,
    ) -> (r: R)
        requires
            forall|p: Playlist|
                p@ == entry_or_empty(old(self)@, guild_id) ==> call_requires(op, (p,)),
        ensures
            exists|p: Playlist, q: Playlist|
                p@ == entry_or_empty(old(self)@, guild_id) && #[trigger] call_ensures(
                    op,
                    (p,),
                    (q, r),
                ) && final(self)@ == old(self)@.insert(guild_id, q@),
    {
        let p = match self.entries.remove(&guild_id) {
            Some(p) => p,
            None => Playlist::new(),
        };
        let ghost p0 = p;
        let (q, r) = op(p);
        let ghost q0 = q;
        self.entries.insert(guild_id, q);
        proof {
            assert(self@ =~= old(self)@.insert(guild_id, q0@));
            assert(p0@ == entry_or_empty(old(self)@, guild_id) && call_ensures(op, (p0,), (q0, r))
                && self@ == old(self)@.insert(guild_id, q0@));
        }
        r
    }

    /// Whether the guild's playlist holds no items; a guild without an
    /// entry counts as empty. No side effects.
    pub fn is_empty(&self, guild_id: u64) -> (r: bool)
        ensures
            r == (entry_or_empty(self@, guild_id).len() == 0),
    {
        match self.entries.get(&guild_id) {
            Some(p) => p.is_empty(),
            None => true,
        }
    }

    /// How many items the guild has queued; a guild without an entry has
    /// zero. No side effects.
    pub fn len_of(&self, guild_id: u64) -> (n: usize)
        ensures
            n == entry_or_empty(self@, guild_id).len(),
    {
        match self.entries.get(&guild_id) {
            Some(p) => p.len(),
            None => 0,
        }
    }
}

} // verus!
