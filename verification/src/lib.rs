//! Core logic of a chat-platform bot that watches for newly created
//! discussion threads and, when a thread's parent channel is a forum,
//! adds a fixed reaction to the thread's opening message.
//!
//! The crate holds the verified decision logic: the event-loop state
//! machine, the thread handler's business rule, the channel
//! classification cache, and the error taxonomy. All network and signal
//! handling stays outside, driven by the decisions made here.

pub mod errors;
pub mod event_loop;
pub mod handler;
pub mod state;

pub use errors::Error;
pub use event_loop::GatewayEvent;
pub use event_loop::GatewayInput;
pub use event_loop::LoopAction;
pub use event_loop::LoopState;
pub use event_loop::complete_close;
pub use event_loop::event_loop;
pub use event_loop::event_loop_step;
pub use event_loop::is_shutting_down;
pub use errors::wrap_result;
pub use handler::ChannelKind;
pub use handler::ForumLookup;
pub use handler::ThreadCreateEvent;
pub use handler::ThreadDecision;
pub use handler::is_forum_kind;
pub use handler::is_forum_post;
pub use handler::on_channel_fetched;
pub use handler::on_thread_create;
pub use handler::upvote_reaction;
pub use state::InnerAppState;
