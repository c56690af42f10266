use forum_upvote::ChannelKind;
use forum_upvote::Error;
use forum_upvote::GatewayEvent;
use forum_upvote::GatewayInput;
use forum_upvote::InnerAppState;
use forum_upvote::LoopAction;
use forum_upvote::LoopState;
use forum_upvote::ThreadCreateEvent;
use forum_upvote::ThreadDecision;
use forum_upvote::complete_close;
use forum_upvote::event_loop;
use forum_upvote::event_loop_step;
use forum_upvote::is_forum_kind;
use forum_upvote::is_forum_post;
use forum_upvote::on_channel_fetched;
use forum_upvote::on_thread_create;
use forum_upvote::upvote_reaction;
use forum_upvote::wrap_result;
use forum_upvote::ForumLookup;

#[test]
fn missing_parent_is_an_error_with_no_calls() {
    let state = InnerAppState::new();
    let thread = ThreadCreateEvent { id: 41, parent_id: None };
    let decision = on_thread_create(&state, &thread);
    assert_eq!(decision, ThreadDecision::Fail(Error::NoThreadParentId));
}

#[test]
fn cached_forum_answers_without_fetch() {
    let mut state = InnerAppState::new();
    state.record_classification(9, true);
    assert_eq!(is_forum_post(&state, 9), ForumLookup::Known(true));
    let thread = ThreadCreateEvent { id: 7, parent_id: Some(9) };
    let decision = on_thread_create(&state, &thread);
    assert_eq!(
        decision,
        ThreadDecision::React { channel_id: 7, message_id: 7 }
    );
}

#[test]
fn cached_non_forum_is_skipped_without_fetch() {
    let mut state = InnerAppState::new();
    state.record_classification(9, false);
    assert_eq!(is_forum_post(&state, 9), ForumLookup::Known(false));
    let thread = ThreadCreateEvent { id: 7, parent_id: Some(9) };
    assert_eq!(on_thread_create(&state, &thread), ThreadDecision::Skip);
}

#[test]
fn cache_miss_asks_for_a_fetch() {
    let state = InnerAppState::new();
    assert_eq!(is_forum_post(&state, 9), ForumLookup::NeedsFetch);
    let thread = ThreadCreateEvent { id: 7, parent_id: Some(9) };
    assert_eq!(
        on_thread_create(&state, &thread),
        ThreadDecision::Fetch { parent_id: 9 }
    );
}

#[test]
fn fetched_non_forum_means_success_without_reaction() {
    let thread = ThreadCreateEvent { id: 7, parent_id: Some(9) };
    assert_eq!(
        on_channel_fetched(&thread, Ok(ChannelKind::GuildText)),
        ThreadDecision::Skip
    );
    assert_eq!(
        on_channel_fetched(&thread, Ok(ChannelKind::Other)),
        ThreadDecision::Skip
    );
}

#[test]
fn fetched_forum_means_one_reaction_on_the_opening_message() {
    let thread = ThreadCreateEvent { id: 7, parent_id: Some(9) };
    assert_eq!(
        on_channel_fetched(&thread, Ok(ChannelKind::GuildForum)),
        ThreadDecision::React { channel_id: 7, message_id: 7 }
    );
}

#[test]
fn fetch_failure_is_propagated_unchanged() {
    let thread = ThreadCreateEvent { id: 7, parent_id: Some(9) };
    assert_eq!(
        on_channel_fetched(&thread, Err(Error::DiscordApi)),
        ThreadDecision::Fail(Error::DiscordApi)
    );
    assert_eq!(
        on_channel_fetched(&thread, Err(Error::BodyDeserialize)),
        ThreadDecision::Fail(Error::BodyDeserialize)
    );
}

#[test]
fn forum_kind_classification() {
    assert!(is_forum_kind(ChannelKind::GuildForum));
    assert!(!is_forum_kind(ChannelKind::GuildText));
    assert!(!is_forum_kind(ChannelKind::Other));
}

#[test]
fn reaction_payload_is_the_upward_arrow() {
    assert_eq!(upvote_reaction(), "\u{2b06}\u{fe0f}");
}

#[test]
fn fatal_transport_error_shuts_down_with_one_close() {
    let inputs = vec![
        GatewayInput::Event(GatewayEvent::Other),
        GatewayInput::TransportError { fatal: true },
        GatewayInput::Event(GatewayEvent::ThreadCreate(ThreadCreateEvent {
            id: 1,
            parent_id: Some(2),
        })),
    ];
    let (actions, state) = event_loop(&inputs);
    assert_eq!(actions, vec![LoopAction::Continue, LoopAction::Close]);
    assert_eq!(state, LoopState::Closed);
    assert_eq!(
        actions.iter().filter(|a| **a == LoopAction::Close).count(),
        1
    );
}

#[test]
fn non_fatal_transport_error_keeps_consuming() {
    let thread = ThreadCreateEvent { id: 3, parent_id: Some(4) };
    let inputs = vec![
        GatewayInput::TransportError { fatal: false },
        GatewayInput::Event(GatewayEvent::ThreadCreate(thread)),
    ];
    let (actions, state) = event_loop(&inputs);
    assert_eq!(
        actions,
        vec![LoopAction::Continue, LoopAction::Dispatch(thread)]
    );
    assert_eq!(state, LoopState::Running);
}

#[test]
fn forum_thread_scenario_ends_in_one_reaction() {
    // Stream delivers one thread-created event for thread 101 under
    // channel 202; 202 is not cached; the fetch reports a forum.
    let thread = ThreadCreateEvent { id: 101, parent_id: Some(202) };
    let inputs = vec![GatewayInput::Event(GatewayEvent::ThreadCreate(thread))];
    let (actions, _) = event_loop(&inputs);
    assert_eq!(actions, vec![LoopAction::Dispatch(thread)]);

    let state = InnerAppState::new();
    let first = on_thread_create(&state, &thread);
    assert_eq!(first, ThreadDecision::Fetch { parent_id: 202 });
    let second = on_channel_fetched(&thread, Ok(ChannelKind::GuildForum));
    assert_eq!(
        second,
        ThreadDecision::React { channel_id: 101, message_id: 101 }
    );
    assert_eq!(upvote_reaction(), "\u{2b06}\u{fe0f}");
    assert_eq!(wrap_result(Ok::<(), Error>(())), None);
}

#[test]
fn parentless_thread_scenario_ends_in_one_logged_error() {
    let thread = ThreadCreateEvent { id: 102, parent_id: None };
    let state = InnerAppState::new();
    let decision = on_thread_create(&state, &thread);
    assert_eq!(decision, ThreadDecision::Fail(Error::NoThreadParentId));
    // The loop boundary reduces the failure to exactly one logged error.
    assert_eq!(
        wrap_result(Err::<(), Error>(Error::NoThreadParentId)),
        Some(Error::NoThreadParentId)
    );
}

#[test]
fn cancellation_skips_queued_events_and_closes_once() {
    let inputs = vec![
        GatewayInput::Cancelled,
        GatewayInput::Event(GatewayEvent::ThreadCreate(ThreadCreateEvent {
            id: 1,
            parent_id: Some(2),
        })),
        GatewayInput::Event(GatewayEvent::Other),
    ];
    let (actions, state) = event_loop(&inputs);
    assert_eq!(actions, vec![LoopAction::Close]);
    assert_eq!(state, LoopState::Closed);
}

#[test]
fn empty_stream_leaves_the_loop_running() {
    let inputs: Vec<GatewayInput> = Vec::new();
    let (actions, state) = event_loop(&inputs);
    assert!(actions.is_empty());
    assert_eq!(state, LoopState::Running);
}

#[test]
fn step_decisions_match_the_state_machine() {
    let r = event_loop_step(LoopState::Running, GatewayInput::Cancelled);
    assert_eq!(r, (LoopState::ShuttingDown, LoopAction::Close));
    let r = event_loop_step(
        LoopState::Running,
        GatewayInput::TransportError { fatal: true },
    );
    assert_eq!(r, (LoopState::ShuttingDown, LoopAction::Close));
    let r = event_loop_step(
        LoopState::Running,
        GatewayInput::TransportError { fatal: false },
    );
    assert_eq!(r, (LoopState::Running, LoopAction::Continue));
    let r = event_loop_step(
        LoopState::Running,
        GatewayInput::Event(GatewayEvent::Other),
    );
    assert_eq!(r, (LoopState::Running, LoopAction::Continue));
    assert_eq!(complete_close(LoopState::ShuttingDown), LoopState::Closed);
}

#[test]
fn cache_entries_are_authoritative_once_present() {
    let mut state = InnerAppState::new();
    assert_eq!(state.cached_classification(5), None);
    state.record_classification(5, true);
    state.record_classification(6, false);
    assert_eq!(state.cached_classification(5), Some(true));
    assert_eq!(state.cached_classification(6), Some(false));
    assert_eq!(state.cached_classification(7), None);
}

#[test]
fn error_messages_name_their_cause() {
    assert_eq!(Error::DiscordApi.message(), "twilight-http error");
    assert_eq!(
        Error::BodyDeserialize.message(),
        "twilight-http deserializer error"
    );
    assert_eq!(
        Error::NoThreadParentId.message(),
        "Discord did not send a parent channel ID, are you sure this is a thread?"
    );
}

#[test]
fn wrap_result_keeps_the_error_and_drops_the_value() {
    assert_eq!(wrap_result(Ok::<u32, Error>(7)), None);
    assert_eq!(
        wrap_result(Err::<u32, Error>(Error::DiscordApi)),
        Some(Error::DiscordApi)
    );
    assert_eq!(
        wrap_result(Err::<u32, Error>(Error::BodyDeserialize)),
        Some(Error::BodyDeserialize)
    );
}
