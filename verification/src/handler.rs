//! The thread handler: the business rule "is the new thread's parent a
//! forum channel?".
//!
//! The handler never performs network I/O itself. It decides, from the
//! application state and a thread-created event, which remote call (if
//! any) the driver must make next, and, once the driver hands back the
//! outcome of a metadata fetch, what follows from it. Side effects are
//! strictly ordered: no lookup or fetch precedes the parent-id
//! validation, and a reaction is requested only after a positive
//! classification.

use vstd::prelude::*;
use crate::errors::Error;
use crate::state::InnerAppState;

verus! {

/// The channel classification the remote platform reports, reduced to
/// what the business rule reads: whether the channel is a forum.
#[derive(Clone, Copy, Debug, PartialEq, Eq, Structural)]
pub enum ChannelKind {
    GuildText,
    GuildForum,
    Other,
}

/// A thread-created event: the new thread's identifier and, if the
/// platform sent one, its parent channel's identifier.
#[derive(Clone, Copy, Debug, PartialEq, Eq, Structural)]
pub struct ThreadCreateEvent {
    pub id: u64,
    pub parent_id: Option<u64>,
}

/// What the thread handler asks the driver to do next.
#[derive(Clone, Copy, Debug, PartialEq, Eq, Structural)]
pub enum ThreadDecision {
    /// Handling failed; the error is logged and the event abandoned.
    Fail(Error),
    /// The parent is not a forum: success, with no side effect.
    Skip,
    /// Fetch the metadata of this channel from the remote API, then
    /// continue with [`on_channel_fetched`].
    Fetch { parent_id: u64 },
    /// Add the fixed reaction to this message in this channel.
    React { channel_id: u64, message_id: u64 },
}

/// The outcome of asking the cache whether a channel is a forum post's
/// parent: a cached answer, or the need to fetch metadata remotely.
#[derive(Clone, Copy, Debug, PartialEq, Eq, Structural)]
pub enum ForumLookup {
    Known(bool),
    NeedsFetch,
}

/// Whether a channel classification is the forum kind.
pub open spec fn spec_is_forum_kind(kind: ChannelKind) -> bool {
    kind is GuildForum
}

/// What the handler decides on a thread-created event, before any
/// remote call: a missing parent fails at once; a cached classification
/// settles the rule; only a cache miss asks for a fetch.
pub open spec fn thread_create_decision(
    forums: Map<u64, bool>,
    thread: ThreadCreateEvent,
) -> ThreadDecision {
    match thread.parent_id {
        None => ThreadDecision::Fail(Error::NoThreadParentId),
        Some(parent) => if forums.contains_key(parent) {
            if forums[parent] {
                ThreadDecision::React { channel_id: thread.id, message_id: thread.id }
            } else {
                ThreadDecision::Skip
            }
        } else {
            ThreadDecision::Fetch { parent_id: parent }
        },
    }
}

/// What follows from a metadata fetch: a failure is propagated
/// unchanged; a forum classification asks for the reaction on the
/// thread's opening message; anything else is a skip.
pub open spec fn fetched_decision(
    thread: ThreadCreateEvent,
    fetched: Result<ChannelKind, Error>,
) -> ThreadDecision {
    match fetched {
        Err(e) => ThreadDecision::Fail(e),
        Ok(kind) => if spec_is_forum_kind(kind) {
            ThreadDecision::React { channel_id: thread.id, message_id: thread.id }
        } else {
            ThreadDecision::Skip
        },
    }
}

/// Whether the remote platform reported the forum channel kind.
pub fn is_forum_kind(kind: ChannelKind) -> (r: bool)
    ensures
        r == spec_is_forum_kind(kind),
{
    match kind {
        ChannelKind::GuildForum => true,
        _ => false,
    }
}

/// Answers "is this channel a forum?" from the classification cache
/// alone: a hit returns the cached boolean with no remote call, a miss
/// reports that a metadata fetch is needed. The freshly fetched value is
/// not written back, so every miss re-queries the remote API.
pub fn is_forum_post(state: &InnerAppState, parent: u64) -> (r: ForumLookup)
    ensures
        state.forums_view().contains_key(parent) ==> r == ForumLookup::Known(
            state.forums_view()[parent],
        ),
        !state.forums_view().contains_key(parent) ==> r == ForumLookup::NeedsFetch,
{
    match state.cached_classification(parent) {
        Some(is_forum) => ForumLookup::Known(is_forum),
        None => ForumLookup::NeedsFetch,
    }
}

/// Handles a thread-created event up to the first remote call.
///
/// An event without a parent channel identifier fails with
/// `NoThreadParentId` before anything else is consulted. Otherwise the
/// cache settles the rule where it can: a cached forum parent asks for
/// the reaction on the thread's opening message (whose identifier the
/// platform shares with the thread), a cached non-forum parent is
/// skipped, and a miss asks the driver to fetch the parent's metadata.
pub fn on_thread_create(state: &InnerAppState, thread: &ThreadCreateEvent) -> (r: ThreadDecision)
    ensures
        r == thread_create_decision(state.forums_view(), *thread),
{
    let parent = match thread.parent_id {
        None => {
            return ThreadDecision::Fail(Error::NoThreadParentId);
        },
        Some(parent) => parent,
    };
    match is_forum_post(state, parent) {
        ForumLookup::Known(true) => ThreadDecision::React {
            channel_id: thread.id,
            message_id: thread.id,
        },
        ForumLookup::Known(false) => ThreadDecision::Skip,
        ForumLookup::NeedsFetch => ThreadDecision::Fetch { parent_id: parent },
    }
}

/// Continues a thread-created event after the driver fetched the parent
/// channel's metadata. A fetch failure is propagated unchanged; a forum
/// kind asks for exactly one reaction, targeting the thread's own
/// opening message; any other kind is a skip.
pub fn on_channel_fetched(
    thread: &ThreadCreateEvent,
    fetched: Result<ChannelKind, Error>,
) -> (r: ThreadDecision)
    ensures
        r == fetched_decision(*thread, fetched),
{
    match fetched {
        Err(e) => ThreadDecision::Fail(e),
        Ok(kind) => if is_forum_kind(kind) {
            ThreadDecision::React { channel_id: thread.id, message_id: thread.id }
        } else {
            ThreadDecision::Skip
        },
    }
}

/// Law: a thread-created event without a parent channel identifier
/// fails with the missing-parent error before anything else happens:
/// whatever the cache holds, the decision is the failure, so no remote
/// call — neither a fetch nor a reaction — is ever requested for it.
pub proof fn lemma_missing_parent_makes_no_calls(forums: Map<u64, bool>, thread: ThreadCreateEvent)
    requires
        thread.parent_id is None,
    ensures
        thread_create_decision(forums, thread) == ThreadDecision::Fail(Error::NoThreadParentId),
{
}

/// Law: a channel previously found to be a forum is answered from the
/// cache. In any cache state extended by recording the parent as a
/// forum — which is exactly what [`InnerAppState::record_classification`]
/// produces — the handler asks for the reaction at once: the lookup hits,
/// returns true, and no fetch is requested.
pub proof fn lemma_cached_forum_reacts_without_fetch(
    forums: Map<u64, bool>,
    thread: ThreadCreateEvent,
    parent: u64,
)
    requires
        thread.parent_id == Some(parent),
    ensures
        thread_create_decision(forums.insert(parent, true), thread) == (ThreadDecision::React {
            channel_id: thread.id,
            message_id: thread.id,
        }),
{
}

/// Law: a metadata fetch that reports a non-forum kind ends the event in
/// success with no side effect: the decision is the skip, never a
/// reaction.
pub proof fn lemma_non_forum_fetch_skips(thread: ThreadCreateEvent, kind: ChannelKind)
    requires
        !spec_is_forum_kind(kind),
    ensures
        fetched_decision(thread, Ok(kind)) == ThreadDecision::Skip,
{
}

/// Law: a metadata fetch that reports the forum kind asks for exactly
/// one reaction, targeting the thread's own opening message: both the
/// channel and the message of the reaction are the thread's identifier.
pub proof fn lemma_forum_fetch_reacts_on_opening_message(thread: ThreadCreateEvent, kind: ChannelKind)
    requires
        spec_is_forum_kind(kind),
    ensures
        fetched_decision(thread, Ok(kind)) == (ThreadDecision::React {
            channel_id: thread.id,
            message_id: thread.id,
        }),
{
}

/// The fixed reaction payload added to a qualifying thread's opening
/// message: the upward-arrow emoji.
pub fn upvote_reaction() -> (r: &'static str)
    ensures
        r@ == "\u{2b06}\u{fe0f}"@,
{
    "\u{2b06}\u{fe0f}"
}

} // verus!
