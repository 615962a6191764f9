//! The event loop's decisions.
//!
//! A [`Session`] owns the keyboard state and the line editor and is fed one
//! thing at a time: a device event, the end of the command, or a failure.
//! It answers with the actions to perform, in order. The loop around it
//! performs them and comes back with what happened next; the session itself
//! touches nothing outside its own state.

use crate::command::{failure_text, sudo_args, Invocation};
use crate::emission::{paced, Emission, Paced};
use crate::event::{spec_key_events, InputEvent, InputEventKind, KEY_RELEASE};
use crate::keyboard::{Keyboard, KeyboardState};
use crate::keys::{Key, KEY_COMMA, KEY_DOT, KEY_LEFT};
use crate::terminal::{
    write_plan, Entry, EventFlag, Terminal, TerminalConfig, WriteBack, WriteBackView,
};
use crate::text::words;
use vstd::prelude::*;

verus! {

/// Where the session stands.
#[derive(Clone, Copy, Debug, PartialEq, Eq, Structural)]
pub enum Phase {
    /// Keys edit the prompt; no command is running.
    Idle,
    /// One command is running; the prompt is frozen.
    Running,
    /// The session is over; nothing is decided any more.
    Exiting,
}

/// What went wrong outside the session.
#[derive(Clone, Copy, Debug, PartialEq, Eq, Structural)]
pub enum Failure {
    /// Privileges could not be dropped, so the command was not started.
    PrivilegeDrop,
    /// An emission, the clipboard or the cancellation did not go through.
    Io,
}

/// One thing for the loop to do.
#[derive(Debug, Clone, PartialEq, Eq)]
pub enum Action {
    /// Write this event to the virtual keyboard as it came.
    Forward(InputEvent),
    /// Write these batches to the virtual keyboard.
    Send(Emission),
    /// Write a command's output back.
    Write(WriteBack),
    /// Drop privileges to `uid`, then run `invocation` in the background.
    Spawn { uid: u32, invocation: Invocation },
    /// Stop the running command; its output is not wanted any more.
    Cancel,
    /// Leave the loop and end the process, with success or with failure.
    Exit { success: bool },
}

/// An [`Action`] as a mathematical value.
pub enum ActionView {
    Forward(InputEvent),
    Send(Paced),
    Write(WriteBackView),
    Spawn { uid: u32, program: Seq<char>, args: Seq<Seq<char>> },
    Cancel,
    Exit { success: bool },
}

impl View for Action {
    type V = ActionView;

    open spec fn view(&self) -> ActionView {
        match *self {
            Action::Forward(event) => ActionView::Forward(event),
            Action::Send(emission) => ActionView::Send(emission@),
            Action::Write(back) => ActionView::Write(back@),
            Action::Spawn { uid, invocation } => ActionView::Spawn {
                uid,
                program: invocation.program@,
                args: words(invocation.args@),
            },
            Action::Cancel => ActionView::Cancel,
            Action::Exit { success } => ActionView::Exit { success },
        }
    }
}

/// The views of a list of actions.
pub open spec fn action_views(actions: Seq<Action>) -> Seq<ActionView> {
    Seq::new(actions.len(), |i: int| actions[i]@)
}

/// A session as a mathematical value.
pub struct SessionState {
    pub phase: Phase,
    pub keyboard: KeyboardState,
    pub entry: Entry,
    pub config: TerminalConfig,
    pub uid: u32,
}

/// The outcome of one step: the state after it and the actions it asks for.
pub struct Step {
    pub next: SessionState,
    pub actions: Seq<ActionView>,
}

impl SessionState {
    pub open spec fn wf(self) -> bool {
        self.entry.wf() && self.config.wf()
    }

    pub open spec fn with_phase(self, phase: Phase) -> SessionState {
        SessionState { phase, ..self }
    }

    pub open spec fn with_entry(self, entry: Entry) -> SessionState {
        SessionState { entry, ..self }
    }

    pub open spec fn with_keyboard(self, keyboard: KeyboardState) -> SessionState {
        SessionState { keyboard, ..self }
    }

    /// Sending `events` with the configured pause.
    pub open spec fn send(self, events: Seq<InputEvent>) -> ActionView {
        ActionView::Send(paced(events, self.config.key_delay))
    }

    /// The actions that draw the empty prompt.
    pub open spec fn start(self) -> Seq<ActionView> {
        seq![
            self.send(spec_key_events(KEY_DOT, true)),
            self.send(spec_key_events(KEY_COMMA, true)),
            self.send(spec_key_events(KEY_LEFT, false)),
        ]
    }

    /// The command that runs the typed text.
    pub open spec fn spawn(self) -> ActionView {
        ActionView::Spawn {
            uid: self.uid,
            program: "sudo"@,
            args: sudo_args(self.uid, words(self.config.pre_cmd@), self.entry.text),
        }
    }

    /// What a key going down or repeating asks for while the prompt is
    /// open: first the events the editor sends in its place, then the key
    /// itself as a fresh tap where it may pass.
    pub open spec fn key_actions(self, key: Key, shift: bool) -> Seq<ActionView> {
        let own = if self.entry.synthesized(key, shift).len() > 0 {
            seq![self.send(self.entry.synthesized(key, shift))]
        } else {
            Seq::empty()
        };
        let pass = if self.entry.flag(key, shift) == EventFlag::Emit {
            seq![self.send(spec_key_events(key, shift))]
        } else {
            Seq::empty()
        };
        own + pass
    }

    /// The first half of a key event: the keyboard takes note of it, a
    /// release is passed on as it came, and a press or repeat edits the
    /// prompt unless a command is running.
    pub open spec fn after_key(self, event: InputEvent, key: Key) -> Step {
        let keyboard = self.keyboard.handle(event.value, key);
        let noted = self.with_keyboard(keyboard);
        if event.value == KEY_RELEASE {
            Step { next: noted, actions: seq![ActionView::Forward(event)] }
        } else if self.phase == Phase::Idle {
            Step {
                next: noted.with_entry(self.entry.press(key, keyboard.is_shift())),
                actions: self.key_actions(key, keyboard.is_shift()),
            }
        } else {
            Step { next: noted, actions: Seq::empty() }
        }
    }

    /// The second half of a key event: what the keys now held ask for.
    /// Control-C or Escape ends the session: a running command is
    /// cancelled and the prompt is erased. Enter starts the command, unless
    /// one is running.
    pub open spec fn after_control(self) -> Step {
        if self.keyboard.is_ctrl_c() || self.keyboard.is_escape() {
            let cancel = if self.phase == Phase::Running {
                seq![ActionView::Cancel]
            } else {
                Seq::empty()
            };
            Step {
                next: self.with_entry(Entry::empty()).with_phase(Phase::Exiting),
                actions: cancel + seq![
                    self.send(self.entry.clear_events()),
                    ActionView::Exit { success: true },
                ],
            }
        } else if self.keyboard.is_enter() && self.phase == Phase::Idle {
            Step { next: self.with_phase(Phase::Running), actions: seq![self.spawn()] }
        } else {
            Step { next: self, actions: Seq::empty() }
        }
    }

    /// One device event. Key events go through both halves above;
    /// synchronization markers are passed on; anything else is dropped. Once
    /// the session is over nothing happens any more.
    pub open spec fn on_event(self, event: InputEvent) -> Step {
        if self.phase == Phase::Exiting {
            Step { next: self, actions: Seq::empty() }
        } else {
            match event.spec_kind() {
                InputEventKind::Key(key) => {
                    let first = self.after_key(event, key);
                    let second = first.next.after_control();
                    Step { next: second.next, actions: first.actions + second.actions }
                },
                InputEventKind::Synchronization(_) => Step {
                    next: self,
                    actions: seq![ActionView::Forward(event)],
                },
                InputEventKind::Other => Step { next: self, actions: Seq::empty() },
            }
        }
    }

    /// The text to write back for the outcome of a command: its output, or
    /// a line that says why it could not be run.
    pub open spec fn contents(outcome: Result<Seq<char>, Seq<char>>) -> Seq<char> {
        match outcome {
            Ok(output) => output,
            Err(reason) => "Command failed: "@ + reason,
        }
    }

    /// The end of the command. Its output is written back over the prompt
    /// and the session ends, with success if the command could be run. An
    /// outcome that arrives when no command is awaited is dropped.
    pub open spec fn on_completion(self, outcome: Result<Seq<char>, Seq<char>>) -> Step {
        if self.phase == Phase::Running {
            Step {
                next: self.with_entry(Entry::empty()).with_phase(Phase::Exiting),
                actions: seq![
                    ActionView::Write(
                        write_plan(
                            self.entry,
                            self.config.output_method,
                            self.config.key_delay,
                            Self::contents(outcome),
                        ),
                    ),
                    ActionView::Exit { success: outcome is Ok },
                ],
            }
        } else {
            Step { next: self, actions: Seq::empty() }
        }
    }

    /// The devices have nothing more to say. The session ends quietly; a
    /// running command is cancelled.
    pub open spec fn on_input_closed(self) -> Step {
        if self.phase == Phase::Exiting {
            Step { next: self, actions: Seq::empty() }
        } else {
            let cancel = if self.phase == Phase::Running {
                seq![ActionView::Cancel]
            } else {
                Seq::empty()
            };
            Step {
                next: self.with_phase(Phase::Exiting),
                actions: cancel + seq![ActionView::Exit { success: true }],
            }
        }
    }

    /// A failure outside the session; every failure ends it. Where
    /// privileges could not be dropped the command never started: the prompt
    /// is erased and nothing is written back. Any other failure means the
    /// virtual keyboard cannot be relied on: a running command is cancelled
    /// and nothing more is sent.
    pub open spec fn on_failure(self, failure: Failure) -> Step {
        if self.phase == Phase::Exiting {
            Step { next: self, actions: seq![ActionView::Exit { success: false }] }
        } else if failure == Failure::PrivilegeDrop && self.phase == Phase::Running {
            Step {
                next: self.with_entry(Entry::empty()).with_phase(Phase::Exiting),
                actions: seq![
                    self.send(self.entry.clear_events()),
                    ActionView::Exit { success: false },
                ],
            }
        } else {
            let cancel = if self.phase == Phase::Running {
                seq![ActionView::Cancel]
            } else {
                Seq::empty()
            };
            Step {
                next: self.with_phase(Phase::Exiting),
                actions: cancel + seq![ActionView::Exit { success: false }],
            }
        }
    }
}

/// The keyboard, the line editor and the phase of one run of the program.
#[derive(Debug)]
pub struct Session {
    uid: u32,
    keyboard: Keyboard,
    terminal: Terminal,
    phase: Phase,
}

impl View for Session {
    type V = SessionState;

    closed spec fn view(&self) -> SessionState {
        SessionState {
            phase: self.phase,
            keyboard: self.keyboard@,
            entry: self.terminal@,
            config: self.terminal.config(),
            uid: self.uid,
        }
    }
}

impl Session {
    /// The prompt's cursor is inside its text and the settings name a command.
    pub open spec fn wf(&self) -> bool {
        self@.wf()
    }

    /// A session that runs commands as user `uid`. It starts idle.
    pub fn new(uid: u32, keyboard: Keyboard, terminal: Terminal) -> (session: Session)
        requires
            terminal.wf(),
        ensures
            session.wf(),
            session@ == (SessionState {
                phase: Phase::Idle,
                keyboard: keyboard@,
                entry: terminal@,
                config: terminal.config(),
                uid,
            }),
    {
        Session { uid, keyboard, terminal, phase: Phase::Idle }
    }

    pub fn phase(&self) -> (phase: Phase)
        ensures
            phase == self@.phase,
    {
        self.phase
    }

    /// The line editor, to look at.
    pub fn terminal(&self) -> (terminal: &Terminal)
        ensures
            terminal@ == self@.entry,
            terminal.config() == self@.config,
    {
        &self.terminal
    }

    /// The keyboard state, to look at.
    pub fn keyboard(&self) -> (keyboard: &Keyboard)
        ensures
            keyboard@ == self@.keyboard,
    {
        &self.keyboard
    }

    /// The actions that draw the empty prompt: `>`, `<`, and one step left.
    pub fn start(&self) -> (actions: Vec<Action>)
        ensures
            action_views(actions@) == self@.start(),
    {
        let mut actions: Vec<Action> = Vec::new();
        actions.push(Action::Send(self.terminal.send_key(KEY_DOT, true)));
        actions.push(Action::Send(self.terminal.send_key(KEY_COMMA, true)));
        actions.push(Action::Send(self.terminal.send_key(KEY_LEFT, false)));
        assert(action_views(actions@) =~= self@.start());
        actions
    }

    /// Decides what one device event asks for; see [`SessionState::on_event`].
    pub fn on_event(&mut self, event: InputEvent) -> (actions: Vec<Action>)
        requires
            old(self).wf(),
        ensures
            final(self).wf(),
            final(self)@ == old(self)@.on_event(event).next,
            action_views(actions@) == old(self)@.on_event(event).actions,
    {
        let mut actions: Vec<Action> = Vec::new();
        if self.phase == Phase::Exiting {
            assert(action_views(actions@) =~= old(self)@.on_event(event).actions);
            return actions;
        }
        match event.kind() {
            InputEventKind::Key(key) => {
                self.keyboard.handle_event(event, key);
                if event.value() == KEY_RELEASE {
                    // Releases always pass: no key must stay down in the application.
                    actions.push(Action::Forward(event));
                } else if self.phase == Phase::Idle {
                    let shift = self.keyboard.is_shift();
                    let handled = self.terminal.handle_key(key, shift);
                    if let Some(emission) = handled.emission {
                        actions.push(Action::Send(emission));
                    }
                    if handled.flag == EventFlag::Emit {
                        // The key goes out as a single tap whether it was a press or a
                        // repeat: the held physical key sets the rate.
                        actions.push(Action::Send(self.terminal.send_key(key, shift)));
                    }
                }
                let ghost first = old(self)@.after_key(event, key);
                assert(self@ == first.next);
                assert(action_views(actions@) =~= first.actions);
                if self.keyboard.is_ctrl_c() || self.keyboard.is_escape() {
                    if self.phase == Phase::Running {
                        actions.push(Action::Cancel);
                    }
                    actions.push(Action::Send(self.terminal.clear()));
                    actions.push(Action::Exit { success: true });
                    self.terminal.reset();
                    self.phase = Phase::Exiting;
                } else if self.keyboard.is_enter() && self.phase == Phase::Idle {
                    let invocation = self.terminal.run(self.uid);
                    actions.push(Action::Spawn { uid: self.uid, invocation });
                    self.phase = Phase::Running;
                }
                assert(self@ == first.next.after_control().next);
                assert(action_views(actions@) =~= first.actions
                    + first.next.after_control().actions);
            },
            InputEventKind::Synchronization(_) => {
                actions.push(Action::Forward(event));
                assert(action_views(actions@) =~= old(self)@.on_event(event).actions);
            },
            InputEventKind::Other => {
                assert(action_views(actions@) =~= old(self)@.on_event(event).actions);
            },
        }
        actions
    }

    /// Decides what the end of the command asks for; see
    /// [`SessionState::on_completion`]. `outcome` is the command's output,
    /// or the reason why it could not be run.
    pub fn on_completion(&mut self, outcome: Result<String, String>) -> (actions: Vec<Action>)
        requires
            old(self).wf(),
        ensures
            final(self).wf(),
            final(self)@ == old(self)@.on_completion(outcome_view(outcome)).next,
            action_views(actions@) == old(self)@.on_completion(outcome_view(outcome)).actions,
    {
        let mut actions: Vec<Action> = Vec::new();
        if self.phase == Phase::Running {
            let (contents, success) = match outcome {
                Ok(output) => (output, true),
                Err(reason) => (failure_text(reason.as_str()), false),
            };
            actions.push(Action::Write(self.terminal.write(contents)));
            actions.push(Action::Exit { success });
            self.terminal.reset();
            self.phase = Phase::Exiting;
        }
        assert(action_views(actions@) =~= old(self)@.on_completion(outcome_view(outcome)).actions);
        actions
    }

    /// Decides what the end of the event streams asks for; see
    /// [`SessionState::on_input_closed`].
    pub fn on_input_closed(&mut self) -> (actions: Vec<Action>)
        requires
            old(self).wf(),
        ensures
            final(self).wf(),
            final(self)@ == old(self)@.on_input_closed().next,
            action_views(actions@) == old(self)@.on_input_closed().actions,
    {
        let mut actions: Vec<Action> = Vec::new();
        if self.phase != Phase::Exiting {
            if self.phase == Phase::Running {
                actions.push(Action::Cancel);
            }
            actions.push(Action::Exit { success: true });
            self.phase = Phase::Exiting;
        }
        assert(action_views(actions@) =~= old(self)@.on_input_closed().actions);
        actions
    }

    /// Decides what a failure asks for; see [`SessionState::on_failure`].
    pub fn on_failure(&mut self, failure: Failure) -> (actions: Vec<Action>)
        requires
            old(self).wf(),
        ensures
            final(self).wf(),
            final(self)@ == old(self)@.on_failure(failure).next,
            action_views(actions@) == old(self)@.on_failure(failure).actions,
    {
        let mut actions: Vec<Action> = Vec::new();
        if self.phase == Phase::Exiting {
            actions.push(Action::Exit { success: false });
        } else if failure == Failure::PrivilegeDrop && self.phase == Phase::Running {
            actions.push(Action::Send(self.terminal.clear()));
            actions.push(Action::Exit { success: false });
            self.terminal.reset();
            self.phase = Phase::Exiting;
        } else {
            if self.phase == Phase::Running {
                actions.push(Action::Cancel);
            }
            actions.push(Action::Exit { success: false });
            self.phase = Phase::Exiting;
        }
        assert(action_views(actions@) =~= old(self)@.on_failure(failure).actions);
        actions
    }
}

/// The view of a command's outcome.
pub open spec fn outcome_view(outcome: Result<String, String>) -> Result<Seq<char>, Seq<char>> {
    match outcome {
        Ok(output) => Ok(output@),
        Err(reason) => Err(reason@),
    }
}

/// Every step leaves the cursor inside the text and the settings as they were.
pub proof fn lemma_steps_keep_state_sound(
    state: SessionState,
    event: InputEvent,
    outcome: Result<Seq<char>, Seq<char>>,
    failure: Failure,
)
    requires
        state.wf(),
    ensures
        state.on_event(event).next.wf(),
        state.on_completion(outcome).next.wf(),
        state.on_failure(failure).next.wf(),
        state.on_event(event).next.config == state.config,
        state.on_completion(outcome).next.config == state.config,
        state.on_failure(failure).next.config == state.config,
        state.on_event(event).next.uid == state.uid,
{
}

/// At most one command runs at a time. A step asks for a command to be
/// started only when the session is idle, it asks for one only, as its last
/// action, and the session is running afterwards; and only such a step makes
/// a session run that did not.
pub proof fn lemma_one_command_at_a_time(state: SessionState, event: InputEvent, i: int)
    requires
        0 <= i < state.on_event(event).actions.len(),
    ensures
        state.on_event(event).actions[i] is Spawn ==> {
            &&& state.phase == Phase::Idle
            &&& state.on_event(event).next.phase == Phase::Running
            &&& i == state.on_event(event).actions.len() - 1
        },
        state.on_event(event).next.phase == Phase::Running && state.phase != Phase::Running
            ==> state.on_event(event).actions.last() is Spawn,
{
}

/// The end of a command and a failure never start a command.
pub proof fn lemma_only_events_start_commands(
    state: SessionState,
    outcome: Result<Seq<char>, Seq<char>>,
    failure: Failure,
    i: int,
)
    ensures
        0 <= i < state.on_completion(outcome).actions.len() ==> !(state.on_completion(
            outcome,
        ).actions[i] is Spawn),
        0 <= i < state.on_failure(failure).actions.len() ==> !(state.on_failure(
            failure,
        ).actions[i] is Spawn),
        state.on_completion(outcome).next.phase != Phase::Running || state.phase
            == Phase::Running,
        state.on_failure(failure).next.phase != Phase::Running,
{
}

/// A command is cancelled once at most. A step asks for the cancellation
/// only while a command is running, and the session is over afterwards, so
/// that no later step can ask again.
pub proof fn lemma_cancel_once(state: SessionState, event: InputEvent, failure: Failure, i: int)
    ensures
        0 <= i < state.on_input_closed().actions.len() && state.on_input_closed().actions[i]
            is Cancel ==> state.phase == Phase::Running && state.on_input_closed().next.phase
            == Phase::Exiting,
        0 <= i < state.on_event(event).actions.len() && state.on_event(event).actions[i] is Cancel
            ==> state.phase == Phase::Running && state.on_event(event).next.phase
            == Phase::Exiting,
        0 <= i < state.on_failure(failure).actions.len() && state.on_failure(
            failure,
        ).actions[i] is Cancel ==> state.phase == Phase::Running && state.on_failure(
            failure,
        ).next.phase == Phase::Exiting,
{
}

/// Once the session is over it stays over and asks for nothing more: no
/// event is answered, and output that arrives late is never written back.
pub proof fn lemma_over_is_over(
    state: SessionState,
    event: InputEvent,
    outcome: Result<Seq<char>, Seq<char>>,
)
    requires
        state.phase == Phase::Exiting,
    ensures
        state.on_event(event) == (Step { next: state, actions: Seq::empty() }),
        state.on_completion(outcome) == (Step { next: state, actions: Seq::empty() }),
{
}

/// While a command runs the prompt is frozen: no event changes the text or
/// the cursor, short of ending the session.
pub proof fn lemma_frozen_while_running(state: SessionState, event: InputEvent)
    requires
        state.phase == Phase::Running,
    ensures
        state.on_event(event).next.entry == state.entry || state.on_event(event).next.phase
            == Phase::Exiting,
{
}

} // verus!
