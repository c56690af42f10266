//! Process-wide application state: the channel classification cache.
//!
//! The cache maps a channel identifier to a boolean "is a forum"
//! classification. An entry, once present, is authoritative for the life
//! of the process: channel forum-ness is treated as immutable, so entries
//! are never invalidated. The event loop drives the handler serially, so
//! the caller owns mutation; sharing across concurrent tasks is the
//! caller's concern and takes a reader-writer lock around this structure.

use vstd::prelude::*;
use std::collections::HashMap;

verus! {

broadcast use vstd::std_specs::hash::group_hash_axioms;

/// The state shared by every task for the process lifetime: the channel
/// classification cache. Constructed once at startup and never
/// reconstructed. The remote API client handle lives with the caller,
/// next to this structure.
pub struct InnerAppState {
    forums: HashMap<u64, bool>,
}

impl InnerAppState {
    /// The cache's contents as a mathematical map from channel
    /// identifier to its forum classification.
    pub closed spec fn forums_view(&self) -> Map<u64, bool> {
        self.forums@
    }

    /// Creates the state with an empty classification cache.
    pub fn new() -> (r: Self)
        ensures
            r.forums_view() == Map::<u64, bool>::empty(),
    {
        InnerAppState { forums: HashMap::with_capacity(256) }
    }

    /// Looks a channel up in the classification cache: the cached
    /// classification if the channel has one, and `None` on a miss.
    /// No remote call is ever made here.
    pub fn cached_classification(&self, channel_id: u64) -> (r: Option<bool>)
        ensures
            self.forums_view().contains_key(channel_id) ==> r == Some(
                self.forums_view()[channel_id],
            ),
            !self.forums_view().contains_key(channel_id) ==> r is None,
    {
        match self.forums.get(&channel_id) {
            Some(is_forum) => Some(*is_forum),
            None => None,
        }
    }

    /// Records a channel's classification. Once present the entry is
    /// authoritative and never invalidated. The thread handler's lookup
    /// path never writes a freshly learned value back, so a missing
    /// channel is re-fetched from the remote API on every miss.
    pub fn record_classification(&mut self, channel_id: u64, is_forum: bool)
        ensures
            final(self).forums_view() == old(self).forums_view().insert(channel_id, is_forum),
    {
        self.forums.insert(channel_id, is_forum);
    }
}

} // verus!
