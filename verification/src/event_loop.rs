//! The event loop's run/stop state machine.
//!
//! The loop races "next gateway event" against "cancellation
//! notification" at the top of each iteration; whichever resolves first
//! is one [`GatewayInput`]. The decisions here are pure: the driver
//! performs the awaiting and the remote calls, feeds each resolved input
//! to [`event_loop_step`], and carries out the returned action. A whole
//! run over a finite input sequence is modelled by [`event_loop`], whose
//! trace the shutdown laws below are proved about.

use vstd::prelude::*;
use crate::handler::ThreadCreateEvent;

verus! {

/// The loop's run/stop states. `Running` consumes events;
/// `ShuttingDown` has stopped consuming and owes the gateway a close
/// handshake; `Closed` has issued it.
#[derive(Clone, Copy, Debug, PartialEq, Eq, Structural)]
pub enum LoopState {
    Running,
    ShuttingDown,
    Closed,
}

/// A decoded event from the gateway, filtered to the one kind the loop
/// reacts to.
#[derive(Clone, Copy, Debug, PartialEq, Eq, Structural)]
pub enum GatewayEvent {
    ThreadCreate(ThreadCreateEvent),
    Other,
}

/// What one iteration's race resolves to: the cancellation
/// notification, a decoded event, or a transport error tagged with the
/// source's own fatal/non-fatal classification.
#[derive(Clone, Copy, Debug, PartialEq, Eq, Structural)]
pub enum GatewayInput {
    Cancelled,
    Event(GatewayEvent),
    TransportError { fatal: bool },
}

/// What the loop asks the driver to do after one iteration.
#[derive(Clone, Copy, Debug, PartialEq, Eq, Structural)]
pub enum LoopAction {
    /// Invoke the thread handler on this event; log (never propagate)
    /// any error it ends in.
    Dispatch(ThreadCreateEvent),
    /// Nothing to do for this input (an irrelevant event, or a logged
    /// non-fatal transport error): consume the next one.
    Continue,
    /// Issue the graceful close handshake to the gateway, best-effort,
    /// and stop consuming events.
    Close,
}

/// Whether an input ends the loop: the cancellation notification does,
/// a fatal transport error does, nothing else does.
pub open spec fn is_terminator(input: GatewayInput) -> bool {
    match input {
        GatewayInput::Cancelled => true,
        GatewayInput::TransportError { fatal } => fatal,
        GatewayInput::Event(_) => false,
    }
}

/// The action a non-terminating input gets: thread-created events are
/// dispatched to the handler, everything else is consumed silently
/// (after logging, for a non-fatal transport error).
pub open spec fn input_action(input: GatewayInput) -> LoopAction {
    match input {
        GatewayInput::Event(GatewayEvent::ThreadCreate(thread)) => LoopAction::Dispatch(thread),
        _ => LoopAction::Continue,
    }
}

/// One iteration of a running loop: a terminating input moves to
/// `ShuttingDown` with the close handshake owed; any other input keeps
/// the loop running with that input's action.
pub open spec fn spec_step(input: GatewayInput) -> (LoopState, LoopAction) {
    if is_terminator(input) {
        (LoopState::ShuttingDown, LoopAction::Close)
    } else {
        (LoopState::Running, input_action(input))
    }
}

/// The actions a run takes on a finite input sequence: one action per
/// input consumed, stopping with a single `Close` at the first
/// terminating input; inputs after it are never consumed.
pub open spec fn loop_trace(inputs: Seq<GatewayInput>) -> Seq<LoopAction>
    decreases inputs.len(),
{
    if inputs.len() == 0 {
        Seq::empty()
    } else if is_terminator(inputs[0]) {
        seq![LoopAction::Close]
    } else {
        seq![input_action(inputs[0])] + loop_trace(inputs.drop_first())
    }
}

/// Whether a run over these inputs shuts down: some input is a
/// terminator (a cancellation, or a fatal transport error).
pub open spec fn loop_terminated(inputs: Seq<GatewayInput>) -> bool {
    exists|j: int| 0 <= j < inputs.len() && is_terminator(inputs[j])
}

/// The state a run over these inputs ends in: `Closed` once a
/// terminating input arrived, else still `Running` (the model simply
/// ran out of input).
pub open spec fn loop_final(inputs: Seq<GatewayInput>) -> LoopState {
    if loop_terminated(inputs) {
        LoopState::Closed
    } else {
        LoopState::Running
    }
}

/// Decides one iteration of the running loop. The cancellation
/// notification and a fatal transport error both move to
/// `ShuttingDown`, owing exactly the close handshake; a non-fatal
/// transport error and an irrelevant event keep consuming; a
/// thread-created event is dispatched to the handler.
pub fn event_loop_step(state: LoopState, input: GatewayInput) -> (r: (LoopState, LoopAction))
    requires
        state is Running,
    ensures
        r == spec_step(input),
{
    match input {
        GatewayInput::Cancelled => (LoopState::ShuttingDown, LoopAction::Close),
        GatewayInput::TransportError { fatal } => {
            if fatal {
                (LoopState::ShuttingDown, LoopAction::Close)
            } else {
                (LoopState::Running, LoopAction::Continue)
            }
        },
        GatewayInput::Event(GatewayEvent::ThreadCreate(thread)) => (
            LoopState::Running,
            LoopAction::Dispatch(thread),
        ),
        GatewayInput::Event(GatewayEvent::Other) => (LoopState::Running, LoopAction::Continue),
    }
}

/// Records that the close handshake owed by `ShuttingDown` has been
/// issued (best-effort: a failure to close is logged, not escalated).
pub fn complete_close(state: LoopState) -> (r: LoopState)
    requires
        state is ShuttingDown,
    ensures
        r is Closed,
{
    LoopState::Closed
}

/// A whole run of the event loop over a finite sequence of resolved
/// inputs: consumes them in order through [`event_loop_step`], carrying
/// out each action only as a recorded trace, and closes once on the
/// first terminating input, leaving later inputs unconsumed.
pub fn event_loop(inputs: &Vec<GatewayInput>) -> (r: (Vec<LoopAction>, LoopState))
    ensures
        r.0@ == loop_trace(inputs@),
        r.1 == loop_final(inputs@),
{
    let mut actions: Vec<LoopAction> = Vec::new();
    let mut state = LoopState::Running;
    let mut i: usize = 0;
    let mut done: bool = false;
    proof {
        assert(inputs@.skip(0) =~= inputs@);
        assert(loop_trace(inputs@) =~= actions@ + loop_trace(inputs@.skip(0)));
    }
    while !done && i < inputs.len()
        invariant
            i <= inputs@.len(),
            !done ==> state is Running,
            !done ==> forall|j: int| 0 <= j < i ==> !is_terminator(inputs@[j]),
            !done ==> loop_trace(inputs@) =~= actions@ + loop_trace(inputs@.skip(i as int)),
            done ==> state is Closed,
            done ==> loop_terminated(inputs@),
            done ==> actions@ =~= loop_trace(inputs@),
        decreases inputs@.len() - i + (if done { 0int } else { 1int }),
    {
        let input = inputs[i];
        let (next, action) = event_loop_step(state, input);
        actions.push(action);
        if is_shutting_down(next) {
            proof {
                assert(is_terminator(inputs@[i as int]));
                assert(inputs@.skip(i as int)[0] == inputs@[i as int]);
                assert(loop_trace(inputs@.skip(i as int)) =~= seq![LoopAction::Close]);
            }
            state = complete_close(next);
            done = true;
        } else {
            proof {
                lemma_trace_unfolds(inputs@, i as int);
                assert(loop_trace(inputs@) =~= actions@ + loop_trace(
                    inputs@.skip(i as int + 1),
                ));
            }
            state = next;
            i = i + 1;
        }
    }
    proof {
        if !done {
            assert(inputs@.skip(i as int) =~= Seq::<GatewayInput>::empty());
            assert(actions@ =~= loop_trace(inputs@));
            assert(!loop_terminated(inputs@));
        }
    }
    (actions, state)
}

/// Whether the loop state is `ShuttingDown`.
pub fn is_shutting_down(state: LoopState) -> (r: bool)
    ensures
        r == (state is ShuttingDown),
{
    match state {
        LoopState::ShuttingDown => true,
        _ => false,
    }
}

/// Unfolds one non-terminating input out of the trace of a suffix.
proof fn lemma_trace_unfolds(inputs: Seq<GatewayInput>, i: int)
    requires
        0 <= i < inputs.len(),
        !is_terminator(inputs[i]),
    ensures
        loop_trace(inputs.skip(i)) =~= seq![input_action(inputs[i])] + loop_trace(
            inputs.skip(i + 1),
        ),
{
    assert(inputs.skip(i)[0] == inputs[i]);
    assert(inputs.skip(i).drop_first() =~= inputs.skip(i + 1));
}

/// Law: until a shutdown cause arrives, the loop consumes every input
/// in order and without interruption: where no input up to and
/// including the `j`-th is a terminator (non-fatal transport errors are
/// not), the `j`-th input's own action stands at position `j` of the
/// trace — in particular, a thread-created event there is dispatched.
pub proof fn lemma_runs_until_terminator(inputs: Seq<GatewayInput>, j: int)
    requires
        0 <= j < inputs.len(),
        forall|k: int| 0 <= k <= j ==> !is_terminator(#[trigger] inputs[k]),
    ensures
        loop_trace(inputs).len() > j,
        loop_trace(inputs)[j] == input_action(inputs[j]),
    decreases j,
{
    assert(!is_terminator(inputs[0]));
    if j > 0 {
        let rest = inputs.drop_first();
        assert(forall|k: int| 0 <= k <= j - 1 ==> !is_terminator(#[trigger] rest[k]));
        lemma_runs_until_terminator(rest, j - 1);
    }
}

/// Law: the loop stops at the first shutdown cause. Where the `j`-th
/// input is the first terminator, the trace consumes exactly the inputs
/// before it, each with its own action, issues the close handshake as
/// its last action, and touches nothing after position `j`.
pub proof fn lemma_stops_at_first_terminator(inputs: Seq<GatewayInput>, j: int)
    requires
        0 <= j < inputs.len(),
        forall|k: int| 0 <= k < j ==> !is_terminator(#[trigger] inputs[k]),
        is_terminator(inputs[j]),
    ensures
        loop_trace(inputs).len() == j + 1,
        loop_trace(inputs)[j] == LoopAction::Close,
        forall|k: int| 0 <= k < j ==> loop_trace(inputs)[k] == input_action(inputs[k]),
    decreases j,
{
    if j > 0 {
        let rest = inputs.drop_first();
        assert(forall|k: int| 0 <= k < j - 1 ==> !is_terminator(#[trigger] rest[k]));
        assert(is_terminator(rest[j - 1]));
        lemma_stops_at_first_terminator(rest, j - 1);
        assert(forall|k: int| 0 <= k < j ==> loop_trace(inputs)[k] == input_action(
            #[trigger] inputs[k],
        )) by {
            assert(forall|k: int| 1 <= k < j ==> loop_trace(rest)[k - 1] == input_action(
                #[trigger] rest[k - 1],
            ));
        }
    }
}

/// Law: a shutdown cause — the cancellation notification or a fatal
/// transport error, wherever it stands in the input — leads to exactly
/// one close handshake, issued as the run's last action.
pub proof fn lemma_close_exactly_once(inputs: Seq<GatewayInput>)
    requires
        loop_terminated(inputs),
    ensures
        loop_trace(inputs).len() > 0,
        loop_trace(inputs).last() == LoopAction::Close,
        forall|k: int| 0 <= k < loop_trace(inputs).len() - 1 ==> loop_trace(inputs)[k]
            != LoopAction::Close,
    decreases inputs.len(),
{
    let w = choose|j: int| 0 <= j < inputs.len() && is_terminator(inputs[j]);
    if is_terminator(inputs[0]) {
        assert(loop_trace(inputs) =~= seq![LoopAction::Close]);
    } else {
        let rest = inputs.drop_first();
        assert(0 < w < inputs.len() && is_terminator(rest[w - 1]));
        lemma_close_exactly_once(rest);
        assert(input_action(inputs[0]) != LoopAction::Close);
        assert(loop_trace(inputs).last() == loop_trace(rest).last());
    }
}

/// Law: while no shutdown cause has arrived at all, no close handshake
/// is issued and every input is consumed with its own action.
pub proof fn lemma_no_close_while_running(inputs: Seq<GatewayInput>)
    requires
        !loop_terminated(inputs),
    ensures
        loop_trace(inputs).len() == inputs.len(),
        forall|k: int| 0 <= k < inputs.len() ==> loop_trace(inputs)[k] != LoopAction::Close,
    decreases inputs.len(),
{
    if inputs.len() > 0 {
        assert(!is_terminator(inputs[0]));
        let rest = inputs.drop_first();
        assert(!loop_terminated(rest)) by {
            assert(forall|j: int| 0 <= j < rest.len() ==> rest[j] == inputs[j + 1]);
        }
        lemma_no_close_while_running(rest);
        assert(input_action(inputs[0]) != LoopAction::Close);
        assert(forall|k: int| 1 <= k < inputs.len() ==> loop_trace(inputs)[k] == loop_trace(
            rest,
        )[k - 1]);
    }
}

} // verus!
