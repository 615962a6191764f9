use shiv::event::{InputEvent, EV_KEY, EV_SYN};
use shiv::keyboard::Keyboard;
use shiv::keys::{
    key_to_char, Key, KEY_A, KEY_BACKSPACE, KEY_DELETE, KEY_END, KEY_ENTER, KEY_ESC, KEY_HOME,
    KEY_LEFT, KEY_LEFTCTRL, KEY_LEFTSHIFT, KEY_PASTE, KEY_RIGHT, KEY_RIGHTSHIFT, KEY_SPACE,
    KEY_TAB, KEY_Z, KEY_1, KEY_SLASH,
};
use shiv::session::{Action, Phase, Session};
use shiv::terminal::{OutputMethod, Terminal, TerminalConfig};

/// A text field that does with key events what text fields do.
struct Field {
    text: Vec<char>,
    cursor: usize,
    shift: bool,
    clipboard: String,
}

impl Field {
    fn around(before: &str, after: &str) -> Field {
        Field {
            text: before.chars().chain(after.chars()).collect(),
            cursor: before.chars().count(),
            shift: false,
            clipboard: String::new(),
        }
    }

    fn text(&self) -> String {
        self.text.iter().collect()
    }

    fn insert(&mut self, c: char) {
        self.text.insert(self.cursor, c);
        self.cursor += 1;
    }

    fn receive(&mut self, event: &InputEvent) {
        if event.event_type != EV_KEY {
            return;
        }
        let key = event.code;
        if key == KEY_LEFTSHIFT || key == KEY_RIGHTSHIFT {
            self.shift = event.value != 0;
        } else if event.value != 0 {
            if let Some(c) = key_to_char(key, self.shift) {
                self.insert(c);
            } else if key == KEY_ENTER {
                self.insert('\n');
            } else if key == KEY_PASTE {
                for c in self.clipboard.clone().chars() {
                    self.insert(c);
                }
            } else if key == KEY_BACKSPACE && self.cursor > 0 {
                self.cursor -= 1;
                self.text.remove(self.cursor);
            } else if key == KEY_DELETE && self.cursor < self.text.len() {
                self.text.remove(self.cursor);
            } else if key == KEY_LEFT && self.cursor > 0 {
                self.cursor -= 1;
            } else if key == KEY_RIGHT && self.cursor < self.text.len() {
                self.cursor += 1;
            } else if key == KEY_HOME {
                self.cursor = 0;
            } else if key == KEY_END {
                self.cursor = self.text.len();
            }
        }
    }

    /// Does what the loop does with `actions`, as far as the field sees it.
    fn perform(&mut self, actions: &[Action]) {
        for action in actions {
            match action {
                Action::Forward(event) => self.receive(event),
                Action::Send(emission) => {
                    for event in emission.batches.iter().flatten() {
                        self.receive(event);
                    }
                }
                Action::Write(back) => {
                    if let Some(text) = &back.clipboard {
                        self.clipboard = text.clone();
                    }
                    for event in back.emission.batches.iter().flatten() {
                        self.receive(event);
                    }
                }
                Action::Spawn { .. } | Action::Cancel | Action::Exit { .. } => {}
            }
        }
    }
}

fn session(method: OutputMethod, delay: Option<u64>) -> Session {
    let config = TerminalConfig {
        pre_cmd: vec!["sh".to_string(), "-c".to_string()],
        output_method: method,
        key_delay: delay,
    };
    Session::new(1000, Keyboard::new(), Terminal::new(config).unwrap())
}

fn framed(before: &str, entry: &str, after: &str) -> String {
    format!("{}>{}<{}", before, entry, after)
}

/// A small generator of numbers that look random and are the same on every run.
fn next(seed: &mut u64) -> u64 {
    *seed = seed.wrapping_mul(6364136223846793005).wrapping_add(1442695040888963407);
    *seed >> 33
}

/// Any key but those that end the session or start the command.
fn some_key(seed: &mut u64) -> Key {
    let editing = [KEY_BACKSPACE, KEY_DELETE, KEY_LEFT, KEY_RIGHT, KEY_HOME, KEY_END];
    match next(seed) % 10 {
        0..=4 => {
            let key = KEY_1 + (next(seed) % u64::from(KEY_SLASH - KEY_1 + 1)) as Key;
            if key == KEY_ENTER || key == KEY_LEFTCTRL {
                KEY_A
            } else {
                key
            }
        }
        5 => KEY_SPACE,
        6 => [KEY_LEFTSHIFT, KEY_RIGHTSHIFT, KEY_TAB, KEY_PASTE][(next(seed) % 4) as usize],
        _ => editing[(next(seed) % 6) as usize],
    }
}

fn some_event(seed: &mut u64) -> InputEvent {
    match next(seed) % 12 {
        0 => InputEvent::new(EV_SYN, 0, 0),
        1 => InputEvent::new(4, 4, (next(seed) % 100) as i32),
        2..=4 => InputEvent::new(EV_KEY, some_key(seed), 0),
        5 => InputEvent::new(EV_KEY, some_key(seed), 2),
        _ => InputEvent::new(EV_KEY, some_key(seed), 1),
    }
}

#[test]
fn the_prompt_is_drawn_around_the_cursor() {
    let session = session(OutputMethod::Type, None);
    let mut field = Field::around("dear ", " sir");
    field.perform(&session.start());
    assert_eq!(field.text(), "dear >< sir");
    assert_eq!(field.cursor, 6);
    assert!(!field.shift);
}

#[test]
fn the_field_shows_what_the_buffer_holds() {
    for (run, method, delay) in [
        (1, OutputMethod::Type, None),
        (2, OutputMethod::Paste, Some(2)),
        (3, OutputMethod::Type, Some(0)),
        (4, OutputMethod::Paste, None),
    ] {
        let mut seed = run;
        let mut session = session(method, delay);
        let mut field = Field::around("ab", "yz");
        field.perform(&session.start());
        for step in 0..3000 {
            let event = some_event(&mut seed);
            let actions = session.on_event(event);
            field.perform(&actions);
            let entry = session.terminal().get_entry();
            assert_eq!(field.text(), framed("ab", &entry, "yz"), "run {} step {}", run, step);
            assert!(!field.shift);
            assert_eq!(session.phase(), Phase::Idle);
            // The cursor of the field is where the next character goes in the buffer.
            let rest = field.text.len() - field.cursor;
            assert!(rest >= 3 && rest <= 3 + entry.chars().count());
        }
    }
}

#[test]
fn escape_leaves_the_field_as_it_was() {
    for run in 10..30 {
        let mut seed = run;
        let mut session = session(OutputMethod::Type, None);
        let mut field = Field::around("ab", "yz");
        field.perform(&session.start());
        for _ in 0..(run * 7) {
            field.perform(&session.on_event(some_event(&mut seed)));
        }
        field.perform(&session.on_event(InputEvent::new(EV_KEY, KEY_ESC, 1)));
        assert_eq!(session.phase(), Phase::Exiting);
        assert_eq!(field.text(), "abyz");
        assert_eq!(field.cursor, 2);
    }
}

#[test]
fn ctrl_c_leaves_the_field_as_it_was() {
    let mut session = session(OutputMethod::Type, Some(1));
    let mut field = Field::around("", "");
    field.perform(&session.start());
    for key in [KEY_A, KEY_Z, KEY_LEFT, KEY_LEFTCTRL, shiv::keys::KEY_C] {
        field.perform(&session.on_event(InputEvent::new(EV_KEY, key, 1)));
    }
    assert_eq!(session.phase(), Phase::Exiting);
    assert_eq!(field.text(), "");
}

#[test]
fn output_takes_the_place_of_the_prompt() {
    for (method, output, shown) in [
        (OutputMethod::Type, "hi\n", "hi\n"),
        (OutputMethod::Paste, "hi\n", "hi\n"),
        (OutputMethod::Type, "a\u{7}B \t\u{e9}?\r\n", "aB \t?\n"),
        (OutputMethod::Paste, "a\u{7}B \t\u{e9}?\r\n", "a\u{7}B \t\u{e9}?\r\n"),
        (OutputMethod::Type, "", ""),
        (OutputMethod::Paste, "", ""),
    ] {
        let mut seed = 77;
        let mut session = session(method, None);
        let mut field = Field::around("ab", "yz");
        field.perform(&session.start());
        for _ in 0..200 {
            field.perform(&session.on_event(some_event(&mut seed)));
        }
        field.perform(&session.on_event(InputEvent::new(EV_KEY, KEY_ENTER, 1)));
        assert_eq!(session.phase(), Phase::Running);
        // Keys pressed while the command runs change nothing on the screen.
        let frozen = field.text();
        for _ in 0..50 {
            field.perform(&session.on_event(some_event(&mut seed)));
        }
        assert_eq!(field.text(), frozen);
        field.perform(&session.on_completion(Ok(output.to_string())));
        assert_eq!(field.text(), format!("ab{}yz", shown));
        assert_eq!(field.cursor, 2 + shown.chars().count());
    }
}
