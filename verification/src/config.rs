use vstd::prelude::*;

use std::collections::HashMap;

verus! {

broadcast use vstd::std_specs::hash::group_hash_axioms;

/// Per-guild behaviour switches, created with defaults on first access.
#[derive(Clone, Copy, Debug, PartialEq, Eq, Structural)]
pub struct GuildConfig {
    /// Leave the voice channel once the guild's playlist is exhausted.
    pub auto_leave: bool,
}

impl Default for GuildConfig {
    /// The fixed default configuration: stay in the channel on exhaustion.
    fn default() -> (c: GuildConfig)
        ensures
            c.auto_leave == false,
    {
        GuildConfig { auto_leave: false }
    }
}

/// What a find-or-create on the store leaves behind: an untouched map when
/// the guild already has an entry, else the map with a default entry added.
pub open spec fn store_ensured(m: Map<u64, GuildConfig>, guild_id: u64) -> Map<u64, GuildConfig> {
    if m.contains_key(guild_id) {
        m
    } else {
        m.insert(guild_id, GuildConfig { auto_leave: false })
    }
}

/// The configuration a guild holds in the store, where a guild without an
/// entry holds the default configuration.
pub open spec fn config_or_default(m: Map<u64, GuildConfig>, guild_id: u64) -> GuildConfig {
    if m.contains_key(guild_id) {
        m[guild_id]
    } else {
        GuildConfig { auto_leave: false }
    }
}

/// Process-scoped mapping from guild identifier to that guild's settings.
///
/// Entries are created lazily with `GuildConfig::default()` and never
/// deleted. At most one entry exists per guild; creation is idempotent.
/// Callers that share the store across tasks serialize access externally;
/// every operation here is one atomic find-or-create-and-act step.
pub struct ConfigStore {
    entries: HashMap<u64, GuildConfig>,
}

impl View for ConfigStore {
    type V = Map<u64, GuildConfig>;

    closed spec fn view(&self) -> Map<u64, GuildConfig> {
        self.entries@
    }
}

impl ConfigStore {
    /// A fresh store with no entries.
    pub fn new() -> (s: ConfigStore)
        ensures
            s@ == Map::<u64, GuildConfig>::empty(),
    {
        ConfigStore { entries: HashMap::new() }
    }

    /// Whether the guild already has an entry.
    pub fn contains(&self, guild_id: u64) -> (r: bool)
        ensures
            r == self@.contains_key(guild_id),
    {
        self.entries.contains_key(&guild_id)
    }

    /// How many guilds have an entry.
    pub fn guild_count(&self) -> (n: usize)
        ensures
            n == self@.len(),
    {
        self.entries.len()
    }

    /// Find or create the guild's entry and read its auto-leave switch.
    pub fn auto_leave(&mut self, guild_id: u64) -> (r: bool)
        ensures
            final(self)@ == store_ensured(old(self)@, guild_id),
            r == final(self)@[guild_id].auto_leave,
    {
        let existing: Option<GuildConfig> = match self.entries.get(&guild_id) {
            Some(c) => Some(*c),
            None => None,
        };
        match existing {
            Some(c) => c.auto_leave,
            None => {
                let c = GuildConfig { auto_leave: false };
                self.entries.insert(guild_id, c);
                c.auto_leave
            },
        }
    }

    /// Find or create the guild's entry, hand it to `op` for the one
    /// read-modify-write it performs, keep the configuration `op` returns
    /// under the guild's key, and return `op`'s result.
    ///
    /// One atomic step on `&mut self`, as on the playlist registry: two
    /// tasks that both observe "no entry yet" can never both insert one,
    /// and entries of other guilds are untouched, whatever `op` does.
    pub fn with_entry<R, F: FnOnce(GuildConfig) -> (GuildConfig, R)>(
        &mut self,
        guild_id: u64,
        op: F,
    ) -> (r: R)
        requires
            call_requires(op, (config_or_default(old(self)@, guild_id),)),
        ensures
            exists|q: GuildConfig|
                #[trigger] call_ensures(op, (config_or_default(old(self)@, guild_id),), (q, r))
                    && final(self)@ == old(self)@.insert(guild_id, q),
    {
        let existing: Option<GuildConfig> = match self.entries.get(&guild_id) {
            Some(c) => Some(*c),
            None => None,
        };
        let current = match existing {
            Some(c) => c,
            None => GuildConfig { auto_leave: false },
        };
        let (q, r) = op(current);
        self.entries.insert(guild_id, q);
        r
    }

    /// Set the guild's auto-leave switch, creating the entry if needed.
    pub fn set_auto_leave(&mut self, guild_id: u64, value: bool)
        ensures
            final(self)@ == old(self)@.insert(guild_id, (GuildConfig { auto_leave: value })),
    {
        self.entries.insert(guild_id, GuildConfig { auto_leave: value });
    }
}

} // verus!
