use vstd::prelude::*;

use crate::metadata::Metadata;
use std::collections::VecDeque;

verus! {

/// FIFO queue of the items one guild has asked for and not yet played.
///
/// The queue preserves insertion order: `push_back` appends at the back and
/// `pop_front` removes from the front. An empty playlist is an ordinary
/// state, not a destroyed one: its registry entry stays keyed so repeated
/// enqueues on a previously-exhausted guild need no recreation.
pub struct Playlist {
    items: VecDeque<Metadata>,
}

impl View for Playlist {
    type V = Seq<Metadata>;

    closed spec fn view(&self) -> Seq<Metadata> {
        self.items@
    }
}

impl Playlist {
    /// A fresh, empty playlist.
    pub fn new() -> (p: Playlist)
        ensures
            p@ == Seq::<Metadata>::empty(),
    {
        Playlist { items: VecDeque::new() }
    }

    /// Append an item at the back; always succeeds.
    pub fn push_back(&mut self, item: Metadata)
        ensures
            final(self)@ == old(self)@.push(item),
    {
        self.items.push_back(item);
    }

    /// Remove and return the oldest item, or `None` when the playlist is empty.
    pub fn pop_front(&mut self) -> (r: Option<Metadata>)
        ensures
            old(self)@.len() == 0 ==> r is None && final(self)@ == old(self)@,
            old(self)@.len() > 0 ==> r == Some(old(self)@[0]) && final(self)@ == old(
                self,
            )@.drop_first(),
    {
        let r = self.items.pop_front();
        proof {
            if old(self)@.len() > 0 {
                assert(self.items@ =~= old(self)@.drop_first());
            }
        }
        r
    }

    /// Whether the playlist holds no items; no side effects.
    pub fn is_empty(&self) -> (r: bool)
        ensures
            r == (self@.len() == 0),
    {
        self.items.len() == 0
    }

    /// How many items are queued.
    pub fn len(&self) -> (n: usize)
        ensures
            n == self@.len(),
    {
        self.items.len()
    }
}

} // verus!
