//! What the screen shows over a session.
//!
//! The session asks for actions; the loop performs them; the events among
//! them reach the text field of the focused application. Here the three are
//! put together: whatever the keyboards send, the field shows the prompt as
//! the session has it, and once the session is over the field is as it was
//! before the prompt was drawn, or holds the command's output in its place.

use crate::emission::lemma_paced_flatten;
use crate::event::{spec_key_events, InputEvent, InputEventKind, KEY_RELEASE};
use crate::field::{
    bare, framed, lemma_clear_restores_field, lemma_init_draws_prompt, lemma_key_keeps_in_step,
    lemma_receive_concat, lemma_write_back_replaces_prompt, sent_for_key, shown, written, Field,
};
use crate::keys::{Key, KEY_COMMA, KEY_DOT, KEY_LEFT};
use crate::session::{ActionView, Failure, Phase, SessionState};
use crate::terminal::{Entry, EventFlag};
use vstd::prelude::*;

verus! {

/// The field after the loop has performed `action`. Events reach the
/// field in the order of their batches; starting, cancelling and leaving do
/// not reach it at all.
pub open spec fn delivered(field: Field, action: ActionView) -> Field {
    match action {
        ActionView::Forward(event) => field.receive(event),
        ActionView::Send(emission) => field.receive_all(emission.batches.flatten()),
        ActionView::Write(back) => written(field, back),
        _ => field,
    }
}

/// The field after the loop has performed `actions` in order.
pub open spec fn delivered_all(field: Field, actions: Seq<ActionView>) -> Field
    decreases actions.len(),
{
    if actions.len() == 0 {
        field
    } else {
        delivered(delivered_all(field, actions.drop_last()), actions.last())
    }
}

/// Performing two lists of actions one after the other is performing them joined.
pub proof fn lemma_delivered_concat(field: Field, first: Seq<ActionView>, second: Seq<ActionView>)
    ensures
        delivered_all(field, first + second) == delivered_all(
            delivered_all(field, first),
            second,
        ),
    decreases second.len(),
{
    if second.len() == 0 {
        assert(first + second =~= first);
    } else {
        assert((first + second).drop_last() =~= first + second.drop_last());
        lemma_delivered_concat(field, first, second.drop_last());
    }
}

/// Drawing the prompt: the actions of [`SessionState::start`] turn a field
/// with the cursor between `before` and `after` into one that shows the
/// session's empty prompt there.
pub proof fn lemma_start_draws_prompt(
    state: SessionState,
    field: Field,
    before: Seq<char>,
    after: Seq<char>,
)
    requires
        field.entry == bare(before, after),
        !field.shift,
    ensures
        delivered_all(field, state.start()) == field.with_entry(
            framed(Entry::empty(), before, after),
        ),
{
    let delay = state.config.key_delay;
    let dot = spec_key_events(KEY_DOT, true);
    let comma = spec_key_events(KEY_COMMA, true);
    let left = spec_key_events(KEY_LEFT, false);
    lemma_paced_flatten(dot, delay);
    lemma_paced_flatten(comma, delay);
    lemma_paced_flatten(left, delay);
    let actions = state.start();
    reveal_with_fuel(delivered_all, 4);
    assert(actions.drop_last() =~= seq![state.send(dot), state.send(comma)]);
    assert(actions.drop_last().drop_last() =~= seq![state.send(dot)]);
    assert(actions.drop_last().drop_last().drop_last() =~= Seq::<ActionView>::empty());
    lemma_receive_concat(field, dot + comma, left);
    lemma_receive_concat(field, dot, comma);
    lemma_init_draws_prompt(field, before, after);
}

/// The session and the field stay in step. Where the field shows the
/// session's prompt between `before` and `after`, the actions that an event
/// asks for leave it showing the prompt as the event left it; and where the
/// event ended the session, they leave the field as it was before the prompt
/// was drawn.
pub proof fn lemma_event_keeps_in_step(
    state: SessionState,
    field: Field,
    before: Seq<char>,
    after: Seq<char>,
    event: InputEvent,
)
    requires
        state.wf(),
        state.phase != Phase::Exiting,
        field.entry == framed(state.entry, before, after),
        !field.shift,
    ensures
        delivered_all(field, state.on_event(event).actions) == field.with_entry(
            if state.on_event(event).next.phase == Phase::Exiting {
                bare(before, after)
            } else {
                framed(state.on_event(event).next.entry, before, after)
            },
        ),
{
    let step = state.on_event(event);
    match event.spec_kind() {
        InputEventKind::Key(key) => {
            let first = state.after_key(event, key);
            let second = first.next.after_control();
            lemma_delivered_concat(field, first.actions, second.actions);
            let mid = delivered_all(field, first.actions);
            assert(mid == field.with_entry(framed(first.next.entry, before, after))) by {
                lemma_key_actions_in_step(state, field, before, after, event, key);
            }
            assert(first.next.entry.wf());
            lemma_control_actions_in_step(first.next, mid, before, after);
        },
        InputEventKind::Synchronization(_) => {
            reveal_with_fuel(delivered_all, 2);
            assert(step.actions.drop_last() =~= Seq::<ActionView>::empty());
        },
        InputEventKind::Other => {},
    }
}

proof fn lemma_key_actions_in_step(
    state: SessionState,
    field: Field,
    before: Seq<char>,
    after: Seq<char>,
    event: InputEvent,
    key: Key,
)
    requires
        state.wf(),
        state.phase != Phase::Exiting,
        field.entry == framed(state.entry, before, after),
        !field.shift,
        event.spec_kind() == InputEventKind::Key(key),
    ensures
        delivered_all(field, state.after_key(event, key).actions) == field.with_entry(
            framed(state.after_key(event, key).next.entry, before, after),
        ),
{
    let first = state.after_key(event, key);
    let delay = state.config.key_delay;
    reveal_with_fuel(delivered_all, 3);
    if event.value == KEY_RELEASE {
        assert(first.actions.drop_last() =~= Seq::<ActionView>::empty());
    } else if state.phase == Phase::Idle {
        let shift = state.keyboard.handle(event.value, key).is_shift();
        let own = state.entry.synthesized(key, shift);
        let pass = spec_key_events(key, shift);
        lemma_paced_flatten(own, delay);
        lemma_paced_flatten(pass, delay);
        lemma_key_keeps_in_step(field, state.entry, before, after, key, shift);
        let sent = sent_for_key(state.entry, key, shift);
        // No key both synthesizes and passes.
        assert(own.len() > 0 ==> state.entry.flag(key, shift) == EventFlag::Block);
        if own.len() > 0 {
            assert(first.actions =~= seq![state.send(own)]);
            assert(first.actions.drop_last() =~= Seq::<ActionView>::empty());
            assert(sent =~= own);
        } else if state.entry.flag(key, shift) == EventFlag::Emit {
            assert(first.actions =~= seq![state.send(pass)]);
            assert(first.actions.drop_last() =~= Seq::<ActionView>::empty());
            assert(sent =~= pass);
        } else {
            assert(first.actions =~= Seq::<ActionView>::empty());
            assert(sent =~= Seq::<InputEvent>::empty());
        }
    }
}

proof fn lemma_control_actions_in_step(
    state: SessionState,
    field: Field,
    before: Seq<char>,
    after: Seq<char>,
)
    requires
        state.wf(),
        state.phase != Phase::Exiting,
        field.entry == framed(state.entry, before, after),
    ensures
        delivered_all(field, state.after_control().actions) == field.with_entry(
            if state.after_control().next.phase == Phase::Exiting {
                bare(before, after)
            } else {
                framed(state.after_control().next.entry, before, after)
            },
        ),
{
    let step = state.after_control();
    let delay = state.config.key_delay;
    let clear = state.entry.clear_events();
    reveal_with_fuel(delivered_all, 4);
    if state.keyboard.is_ctrl_c() || state.keyboard.is_escape() {
        lemma_paced_flatten(clear, delay);
        lemma_clear_restores_field(field, state.entry, before, after);
        let exit = ActionView::Exit { success: true };
        if state.phase == Phase::Running {
            assert(step.actions =~= seq![ActionView::Cancel, state.send(clear), exit]);
            assert(step.actions.drop_last() =~= seq![ActionView::Cancel, state.send(clear)]);
            assert(step.actions.drop_last().drop_last() =~= seq![ActionView::Cancel]);
            assert(step.actions.drop_last().drop_last().drop_last() =~= Seq::<
                ActionView,
            >::empty());
        } else {
            assert(step.actions =~= seq![state.send(clear), exit]);
            assert(step.actions.drop_last() =~= seq![state.send(clear)]);
            assert(step.actions.drop_last().drop_last() =~= Seq::<ActionView>::empty());
        }
    } else if state.keyboard.is_enter() && state.phase == Phase::Idle {
        assert(step.actions.drop_last() =~= Seq::<ActionView>::empty());
    }
}

/// Output replaces the prompt. Where the field shows the prompt of a
/// running session between `before` and `after`, the actions that the end
/// of the command asks for leave it showing `before`, the text written back
/// and `after`.
pub proof fn lemma_completion_replaces_prompt(
    state: SessionState,
    field: Field,
    before: Seq<char>,
    after: Seq<char>,
    outcome: Result<Seq<char>, Seq<char>>,
)
    requires
        state.wf(),
        state.phase == Phase::Running,
        field.entry == framed(state.entry, before, after),
        !field.shift,
    ensures
        delivered_all(field, state.on_completion(outcome).actions).entry == bare(
            before + shown(state.config.output_method, SessionState::contents(outcome)),
            after,
        ),
{
    let step = state.on_completion(outcome);
    reveal_with_fuel(delivered_all, 3);
    assert(step.actions.drop_last() =~= seq![step.actions[0]]);
    assert(step.actions.drop_last().drop_last() =~= Seq::<ActionView>::empty());
    lemma_write_back_replaces_prompt(
        field,
        state.entry,
        before,
        after,
        state.config.output_method,
        state.config.key_delay,
        SessionState::contents(outcome),
    );
}

/// A command that could not be started leaves no trace. Where the field
/// shows the prompt of a running session, the actions asked for when
/// privileges could not be dropped leave the field as it was before the
/// prompt was drawn.
pub proof fn lemma_failed_start_erases_prompt(
    state: SessionState,
    field: Field,
    before: Seq<char>,
    after: Seq<char>,
)
    requires
        state.wf(),
        state.phase == Phase::Running,
        field.entry == framed(state.entry, before, after),
    ensures
        delivered_all(field, state.on_failure(Failure::PrivilegeDrop).actions) == field.with_entry(
            bare(before, after),
        ),
{
    let step = state.on_failure(Failure::PrivilegeDrop);
    reveal_with_fuel(delivered_all, 3);
    assert(step.actions.drop_last() =~= seq![step.actions[0]]);
    assert(step.actions.drop_last().drop_last() =~= Seq::<ActionView>::empty());
    lemma_paced_flatten(state.entry.clear_events(), state.config.key_delay);
    lemma_clear_restores_field(field, state.entry, before, after);
}

/// The session after a run of device events.
pub open spec fn after_events(state: SessionState, events: Seq<InputEvent>) -> SessionState
    decreases events.len(),
{
    if events.len() == 0 {
        state
    } else {
        after_events(state, events.drop_last()).on_event(events.last()).next
    }
}

/// The actions asked for over a run of device events, in order.
pub open spec fn actions_for_events(state: SessionState, events: Seq<InputEvent>) -> Seq<
    ActionView,
>
    decreases events.len(),
{
    if events.len() == 0 {
        Seq::empty()
    } else {
        actions_for_events(state, events.drop_last()) + after_events(
            state,
            events.drop_last(),
        ).on_event(events.last()).actions
    }
}

/// Whatever the keyboards send, the field shows the prompt as the session
/// has it, and nothing of it once the session is over. Where the field
/// shows the session's prompt between `before` and `after`, the actions
/// asked for over any run of device events leave it showing the prompt as
/// the run left it, or, where the run ended the session, as it was before
/// the prompt was drawn.
pub proof fn lemma_events_keep_in_step(
    state: SessionState,
    field: Field,
    before: Seq<char>,
    after: Seq<char>,
    events: Seq<InputEvent>,
)
    requires
        state.wf(),
        state.phase != Phase::Exiting,
        field.entry == framed(state.entry, before, after),
        !field.shift,
    ensures
        after_events(state, events).wf(),
        delivered_all(field, actions_for_events(state, events)) == field.with_entry(
            if after_events(state, events).phase == Phase::Exiting {
                bare(before, after)
            } else {
                framed(after_events(state, events).entry, before, after)
            },
        ),
    decreases events.len(),
{
    if events.len() > 0 {
        let rest = events.drop_last();
        let mid_state = after_events(state, rest);
        let mid_field = delivered_all(field, actions_for_events(state, rest));
        lemma_events_keep_in_step(state, field, before, after, rest);
        lemma_delivered_concat(
            field,
            actions_for_events(state, rest),
            mid_state.on_event(events.last()).actions,
        );
        if mid_state.phase != Phase::Exiting {
            lemma_event_keeps_in_step(mid_state, mid_field, before, after, events.last());
        }
    }
}

} // verus!
