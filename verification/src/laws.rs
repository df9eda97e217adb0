use vstd::prelude::*;

use crate::metadata::Metadata;
use crate::registry::{entry_or_empty, registry_ensured};

verus! {

/// The sequence of items obtained by popping a queue that holds `s` until
/// it is empty: each pop yields the front and leaves the rest, per
/// `Playlist::pop_front`'s contract.
pub open spec fn drained(s: Seq<Metadata>) -> Seq<Metadata>
    decreases s.len(),
{
    if s.len() == 0 {
        Seq::<Metadata>::empty()
    } else {
        seq![s[0]] + drained(s.drop_first())
    }
}

/// FIFO law: for every sequence of pushes to a fresh playlist, popping
/// repeatedly yields the items in push order. Pushing the items of `s` one
/// by one leaves the queue holding exactly `s` (each push appends at the
/// back), and `drained` collects what each pop then returns, front first;
/// the collected sequence is `s` itself.
pub proof fn lemma_playlist_fifo(s: Seq<Metadata>)
    ensures
        drained(s) == s,
    decreases s.len(),
{
    if s.len() == 0 {
        assert(drained(s) =~= s);
    } else {
        lemma_playlist_fifo(s.drop_first());
        assert(drained(s) =~= s);
    }
}

/// Advancing a non-empty queue removes exactly one item, the oldest: the
/// queue decomposes into its front followed by what `advance` leaves
/// behind, one item shorter, and what a later pop returns comes from that
/// remainder — the removed occurrence is gone.
pub proof fn lemma_advance_removes_oldest(e: Seq<Metadata>)
    requires
        e.len() > 0,
    ensures
        e == seq![e[0]] + e.drop_first(),
        e.drop_first().len() == e.len() - 1,
        e.len() > 1 ==> e.drop_first()[0] == e[1],
{
    assert(e =~= seq![e[0]] + e.drop_first());
}

/// Per-guild isolation: every registry operation on one guild leaves the
/// registry's view as an insert under that guild's key alone, so every
/// other guild's queue reads back unchanged.
pub proof fn lemma_guild_isolation(
    m: Map<u64, Seq<Metadata>>,
    guild_id: u64,
    e: Seq<Metadata>,
    other: u64,
)
    requires
        other != guild_id,
    ensures
        entry_or_empty(m.insert(guild_id, e), other) == entry_or_empty(m, other),
{
}

/// Operations on two different guilds commute: every registry operation
/// leaves the view as an insert under the one guild's key, with the new
/// entry computed from that guild's old entry alone, so folding two
/// guilds' changes in either order gives the same registry. Neither call
/// reads or waits on anything the other touches.
pub proof fn lemma_guild_commutativity(
    m: Map<u64, Seq<Metadata>>,
    g1: u64,
    e1: Seq<Metadata>,
    g2: u64,
    e2: Seq<Metadata>,
)
    requires
        g1 != g2,
    ensures
        m.insert(g1, e1).insert(g2, e2) == m.insert(g2, e2).insert(g1, e1),
{
    assert(m.insert(g1, e1).insert(g2, e2) =~= m.insert(g2, e2).insert(g1, e1));
}

/// Idempotent creation: finding-or-creating the same guild's entry twice
/// creates it exactly once. The second pass changes nothing; when the
/// guild was absent, exactly one entry is added and it holds the empty
/// queue; when it was present, nothing changes at all.
pub proof fn lemma_idempotent_creation(m: Map<u64, Seq<Metadata>>, guild_id: u64)
    requires
        m.dom().finite(),
    ensures
        registry_ensured(registry_ensured(m, guild_id), guild_id) == registry_ensured(m, guild_id),
        registry_ensured(m, guild_id).contains_key(guild_id),
        !m.contains_key(guild_id) ==> registry_ensured(m, guild_id).len() == m.len() + 1
            && registry_ensured(m, guild_id)[guild_id] == Seq::<Metadata>::empty(),
        m.contains_key(guild_id) ==> registry_ensured(m, guild_id) == m,
{
    if !m.contains_key(guild_id) {
        let inserted = m.insert(guild_id, Seq::<Metadata>::empty());
        assert(inserted.dom() =~= m.dom().insert(guild_id));
        vstd::set::axiom_set_insert_len(m.dom(), guild_id);
    }
}

} // verus!
