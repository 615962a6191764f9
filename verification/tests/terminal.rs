use shiv::emission::Emission;
use shiv::event::{InputEvent, EV_KEY, EV_SYN};
use shiv::keys::{
    Key, KEY_A, KEY_B, KEY_BACKSPACE, KEY_C, KEY_COMMA, KEY_DELETE, KEY_DOT, KEY_E, KEY_END,
    KEY_ENTER, KEY_ESC, KEY_H, KEY_HOME, KEY_I, KEY_LEFT, KEY_LEFTSHIFT, KEY_O, KEY_PASTE,
    KEY_RIGHT, KEY_SPACE, KEY_TAB, KEY_1,
};
use shiv::terminal::{ConfigError, EventFlag, OutputMethod, Terminal, TerminalConfig};

fn config(method: OutputMethod, delay: Option<u64>) -> TerminalConfig {
    TerminalConfig {
        pre_cmd: vec!["sh".to_string(), "-c".to_string()],
        output_method: method,
        key_delay: delay,
    }
}

fn terminal() -> Terminal {
    Terminal::new(TerminalConfig::default()).unwrap()
}

fn down(key: Key) -> InputEvent {
    InputEvent { event_type: EV_KEY, code: key, value: 1 }
}

fn up(key: Key) -> InputEvent {
    InputEvent { event_type: EV_KEY, code: key, value: 0 }
}

fn sync() -> InputEvent {
    InputEvent { event_type: EV_SYN, code: 0, value: 0 }
}

fn tap(key: Key) -> Vec<InputEvent> {
    vec![down(key), sync(), up(key), sync()]
}

fn shifted(key: Key) -> Vec<InputEvent> {
    let mut events = vec![down(KEY_LEFTSHIFT), sync()];
    events.extend(tap(key));
    events.extend([up(KEY_LEFTSHIFT), sync()]);
    events
}

fn taps(key: Key, n: usize) -> Vec<InputEvent> {
    let mut events = Vec::new();
    for _ in 0..n {
        events.extend(tap(key));
    }
    events
}

fn whole(events: Vec<InputEvent>) -> Emission {
    Emission { batches: vec![events], delay: None }
}

fn type_keys(terminal: &mut Terminal, keys: &[(Key, bool)]) {
    for (key, shift) in keys {
        terminal.handle_key(*key, *shift);
    }
}

#[test]
fn default_config() {
    let config = TerminalConfig::default();
    assert_eq!(config.pre_cmd, vec!["bash".to_string(), "-c".to_string()]);
    assert_eq!(config.output_method, OutputMethod::Paste);
    assert_eq!(config.key_delay, None);
}

#[test]
fn new_terminal_is_empty() {
    let terminal = terminal();
    assert_eq!(terminal.get_entry(), "");
    assert_eq!(terminal.clear_events(), [taps(KEY_DELETE, 1), taps(KEY_BACKSPACE, 1)].concat());
}

#[test]
fn new_terminal_needs_a_command() {
    let empty = TerminalConfig { pre_cmd: vec![], output_method: OutputMethod::Type, key_delay: None };
    assert_eq!(Terminal::new(empty), Err(ConfigError::Empty));
    let blank = TerminalConfig {
        pre_cmd: vec![String::new()],
        output_method: OutputMethod::Type,
        key_delay: None,
    };
    assert!(Terminal::new(blank).is_ok());
}

#[test]
fn key_events_plain() {
    let terminal = terminal();
    assert_eq!(
        terminal.key_events(KEY_A, false),
        vec![
            InputEvent::new(EV_KEY, KEY_A, 1),
            InputEvent::new(EV_SYN, 0, 0),
            InputEvent::new(EV_KEY, KEY_A, 0),
            InputEvent::new(EV_SYN, 0, 0),
        ]
    );
}

#[test]
fn key_events_shifted() {
    let terminal = terminal();
    assert_eq!(
        terminal.key_events(KEY_A, true),
        vec![
            InputEvent::new(EV_KEY, KEY_LEFTSHIFT, 1),
            InputEvent::new(EV_SYN, 0, 0),
            InputEvent::new(EV_KEY, KEY_A, 1),
            InputEvent::new(EV_SYN, 0, 0),
            InputEvent::new(EV_KEY, KEY_A, 0),
            InputEvent::new(EV_SYN, 0, 0),
            InputEvent::new(EV_KEY, KEY_LEFTSHIFT, 0),
            InputEvent::new(EV_SYN, 0, 0),
        ]
    );
}

#[test]
fn init_draws_the_markers() {
    let terminal = terminal();
    assert_eq!(
        terminal.init(),
        vec![whole(shifted(KEY_DOT)), whole(shifted(KEY_COMMA)), whole(tap(KEY_LEFT))]
    );
}

#[test]
fn typing_inserts_at_the_cursor() {
    let mut terminal = terminal();
    let handled = terminal.handle_key(KEY_A, false);
    assert_eq!(handled.flag, EventFlag::Emit);
    assert_eq!(handled.emission, None);
    terminal.handle_key(KEY_C, false);
    assert_eq!(terminal.get_entry(), "ac");
    assert_eq!(terminal.handle_key(KEY_LEFT, false).flag, EventFlag::Emit);
    assert_eq!(terminal.handle_key(KEY_B, true).flag, EventFlag::Emit);
    assert_eq!(terminal.get_entry(), "aBc");
    terminal.handle_key(KEY_1, true);
    assert_eq!(terminal.get_entry(), "aB!c");
}

#[test]
fn shift_picks_the_table() {
    let mut terminal = terminal();
    type_keys(&mut terminal, &[(KEY_1, false), (KEY_1, true), (KEY_TAB, true), (KEY_SPACE, false)]);
    assert_eq!(terminal.get_entry(), "1!\t ");
}

#[test]
fn backspace_removes_before_the_cursor() {
    let mut terminal = terminal();
    type_keys(&mut terminal, &[(KEY_A, false), (KEY_B, false), (KEY_C, false)]);
    terminal.handle_key(KEY_LEFT, false);
    let handled = terminal.handle_key(KEY_BACKSPACE, false);
    assert_eq!(handled.flag, EventFlag::Emit);
    assert_eq!(handled.emission, None);
    assert_eq!(terminal.get_entry(), "ac");
    // The cursor is between a and c now.
    terminal.handle_key(KEY_E, false);
    assert_eq!(terminal.get_entry(), "aec");
}

#[test]
fn backspace_at_the_start_is_blocked() {
    let mut terminal = terminal();
    assert_eq!(terminal.handle_key(KEY_BACKSPACE, false).flag, EventFlag::Block);
    assert_eq!(terminal.get_entry(), "");
    type_keys(&mut terminal, &[(KEY_A, false), (KEY_B, false), (KEY_HOME, false)]);
    let before = terminal.clone();
    let handled = terminal.handle_key(KEY_BACKSPACE, false);
    assert_eq!(handled.flag, EventFlag::Block);
    assert_eq!(handled.emission, None);
    assert_eq!(terminal, before);
    assert_eq!(terminal.get_entry(), "ab");
}

#[test]
fn delete_removes_at_the_cursor() {
    let mut terminal = terminal();
    type_keys(&mut terminal, &[(KEY_A, false), (KEY_B, false), (KEY_C, false)]);
    type_keys(&mut terminal, &[(KEY_LEFT, false), (KEY_LEFT, false)]);
    let handled = terminal.handle_key(KEY_DELETE, false);
    assert_eq!(handled.flag, EventFlag::Emit);
    assert_eq!(terminal.get_entry(), "ac");
    // The cursor has not moved: it is between a and c.
    terminal.handle_key(KEY_E, false);
    assert_eq!(terminal.get_entry(), "aec");
}

#[test]
fn delete_at_the_end_is_blocked() {
    let mut terminal = terminal();
    assert_eq!(terminal.handle_key(KEY_DELETE, false).flag, EventFlag::Block);
    type_keys(&mut terminal, &[(KEY_A, false), (KEY_B, false)]);
    let before = terminal.clone();
    let handled = terminal.handle_key(KEY_DELETE, false);
    assert_eq!(handled.flag, EventFlag::Block);
    assert_eq!(handled.emission, None);
    assert_eq!(terminal, before);
    assert_eq!(terminal.get_entry(), "ab");
}

#[test]
fn left_and_right_stop_at_the_ends() {
    let mut terminal = terminal();
    assert_eq!(terminal.handle_key(KEY_LEFT, false).flag, EventFlag::Block);
    assert_eq!(terminal.handle_key(KEY_RIGHT, false).flag, EventFlag::Block);
    type_keys(&mut terminal, &[(KEY_A, false), (KEY_B, false)]);
    assert_eq!(terminal.handle_key(KEY_RIGHT, false).flag, EventFlag::Block);
    assert_eq!(terminal.handle_key(KEY_LEFT, false).flag, EventFlag::Emit);
    assert_eq!(terminal.handle_key(KEY_LEFT, false).flag, EventFlag::Emit);
    assert_eq!(terminal.handle_key(KEY_LEFT, false).flag, EventFlag::Block);
    assert_eq!(terminal.handle_key(KEY_RIGHT, false).flag, EventFlag::Emit);
    terminal.handle_key(KEY_C, false);
    assert_eq!(terminal.get_entry(), "acb");
}

#[test]
fn home_is_played_as_left_taps() {
    let mut terminal = terminal();
    type_keys(&mut terminal, &[(KEY_A, false), (KEY_B, false), (KEY_C, false)]);
    terminal.handle_key(KEY_LEFT, false);
    let handled = terminal.handle_key(KEY_HOME, false);
    assert_eq!(handled.flag, EventFlag::Block);
    assert_eq!(handled.emission, Some(whole(taps(KEY_LEFT, 2))));
    assert_eq!(terminal.get_entry(), "abc");
    terminal.handle_key(KEY_E, false);
    assert_eq!(terminal.get_entry(), "eabc");
}

#[test]
fn home_at_the_start_sends_nothing() {
    let mut terminal = terminal();
    let handled = terminal.handle_key(KEY_HOME, false);
    assert_eq!(handled.flag, EventFlag::Block);
    assert_eq!(handled.emission, None);
}

#[test]
fn end_is_played_as_right_taps() {
    let mut terminal = terminal();
    type_keys(&mut terminal, &[(KEY_A, false), (KEY_B, false), (KEY_C, false)]);
    type_keys(&mut terminal, &[(KEY_LEFT, false), (KEY_LEFT, false)]);
    let handled = terminal.handle_key(KEY_END, true);
    assert_eq!(handled.flag, EventFlag::Block);
    assert_eq!(handled.emission, Some(whole(taps(KEY_RIGHT, 2))));
    terminal.handle_key(KEY_E, false);
    assert_eq!(terminal.get_entry(), "abce");
    let handled = terminal.handle_key(KEY_END, false);
    assert_eq!(handled.flag, EventFlag::Block);
    assert_eq!(handled.emission, None);
}

#[test]
fn home_then_end() {
    let mut terminal = terminal();
    type_keys(&mut terminal, &[(KEY_A, false), (KEY_B, false), (KEY_C, false), (KEY_LEFT, false)]);
    let home = terminal.handle_key(KEY_HOME, false);
    let end = terminal.handle_key(KEY_END, false);
    assert_eq!(home.emission, Some(whole(taps(KEY_LEFT, 2))));
    assert_eq!(end.emission, Some(whole(taps(KEY_RIGHT, 3))));
    assert_eq!(terminal.get_entry(), "abc");
    terminal.handle_key(KEY_E, false);
    assert_eq!(terminal.get_entry(), "abce");
}

#[test]
fn other_keys_are_blocked() {
    let mut terminal = terminal();
    type_keys(&mut terminal, &[(KEY_A, false)]);
    let before = terminal.clone();
    for key in [KEY_ENTER, KEY_ESC, KEY_LEFTSHIFT, KEY_PASTE, 0, 103, 0x2ff, u16::MAX] {
        for shift in [false, true] {
            let handled = terminal.handle_key(key, shift);
            assert_eq!(handled.flag, EventFlag::Block);
            assert_eq!(handled.emission, None);
            assert_eq!(terminal, before);
        }
    }
}

#[test]
fn clear_events_count_both_sides_and_the_markers() {
    let mut terminal = terminal();
    type_keys(&mut terminal, &[(KEY_A, false), (KEY_B, false), (KEY_C, false), (KEY_E, false)]);
    terminal.handle_key(KEY_LEFT, false);
    // Four characters, the cursor behind the third: two deletes, four backspaces.
    assert_eq!(terminal.clear_events(), [taps(KEY_DELETE, 2), taps(KEY_BACKSPACE, 4)].concat());
    assert_eq!(terminal.clear(), whole([taps(KEY_DELETE, 2), taps(KEY_BACKSPACE, 4)].concat()));
    terminal.handle_key(KEY_HOME, false);
    assert_eq!(terminal.clear_events(), [taps(KEY_DELETE, 5), taps(KEY_BACKSPACE, 1)].concat());
    terminal.handle_key(KEY_END, false);
    assert_eq!(terminal.clear_events(), [taps(KEY_DELETE, 1), taps(KEY_BACKSPACE, 5)].concat());
    assert_eq!(terminal.clear_events().len(), 4 * (4 + 2));
}

#[test]
fn send_events_without_delay_is_one_batch() {
    let terminal = terminal();
    assert_eq!(terminal.send_events(tap(KEY_A)), whole(tap(KEY_A)));
    assert_eq!(terminal.send_events(vec![]), Emission { batches: vec![vec![]], delay: None });
    assert_eq!(terminal.send_key(KEY_A, true), whole(shifted(KEY_A)));
}

#[test]
fn send_events_with_delay_goes_out_in_pairs() {
    let terminal = Terminal::new(config(OutputMethod::Type, Some(5))).unwrap();
    assert_eq!(
        terminal.send_key(KEY_A, true),
        Emission {
            batches: vec![
                vec![down(KEY_LEFTSHIFT), sync()],
                vec![down(KEY_A), sync()],
                vec![up(KEY_A), sync()],
                vec![up(KEY_LEFTSHIFT), sync()],
            ],
            delay: Some(5),
        }
    );
    assert_eq!(terminal.send_events(vec![]), Emission { batches: vec![], delay: Some(5) });
    assert_eq!(
        terminal.send_events(vec![down(KEY_A), sync(), up(KEY_A)]),
        Emission { batches: vec![vec![down(KEY_A), sync()], vec![up(KEY_A)]], delay: Some(5) }
    );
    assert_eq!(
        terminal.send_events(vec![down(KEY_A)]),
        Emission { batches: vec![vec![down(KEY_A)]], delay: Some(5) }
    );
}

#[test]
fn home_with_delay_goes_out_in_pairs() {
    let mut terminal = Terminal::new(config(OutputMethod::Type, Some(1))).unwrap();
    type_keys(&mut terminal, &[(KEY_A, false)]);
    let handled = terminal.handle_key(KEY_HOME, false);
    assert_eq!(
        handled.emission,
        Some(Emission {
            batches: vec![vec![down(KEY_LEFT), sync()], vec![up(KEY_LEFT), sync()]],
            delay: Some(1),
        })
    );
}

#[test]
fn write_type_types_every_character() {
    let terminal = Terminal::new(config(OutputMethod::Type, None)).unwrap();
    let back = terminal.write_type("hi\n".to_string(), None);
    assert_eq!(back.clipboard, None);
    assert_eq!(back.skipped, Vec::<char>::new());
    assert_eq!(back.emission, whole([tap(KEY_H), tap(KEY_I), tap(KEY_ENTER)].concat()));
}

#[test]
fn write_type_follows_the_reverse_table() {
    let terminal = Terminal::new(config(OutputMethod::Type, None)).unwrap();
    let back = terminal.write_type("A \t".to_string(), Some(tap(KEY_DELETE)));
    assert_eq!(
        back.emission,
        whole([tap(KEY_DELETE), shifted(KEY_A), shifted(KEY_SPACE), tap(KEY_TAB)].concat())
    );
}

#[test]
fn write_type_skips_what_no_key_types() {
    let terminal = Terminal::new(config(OutputMethod::Type, None)).unwrap();
    let back = terminal.write_type("a\u{7}b\u{e9}\rc".to_string(), None);
    assert_eq!(back.skipped, vec!['\u{7}', '\u{e9}', '\r']);
    assert_eq!(back.emission, whole([tap(KEY_A), tap(KEY_B), tap(KEY_C)].concat()));
    let back = terminal.write_type("\u{7}".to_string(), None);
    assert_eq!(back.skipped, vec!['\u{7}']);
    assert_eq!(back.emission, whole(vec![]));
}

#[test]
fn write_paste_uses_the_clipboard() {
    let terminal = terminal();
    let back = terminal.write_paste("h\u{e9}llo\n".to_string(), Some(tap(KEY_DELETE)));
    assert_eq!(back.clipboard, Some("h\u{e9}llo\n".to_string()));
    assert_eq!(back.skipped, Vec::<char>::new());
    assert_eq!(back.emission, whole([tap(KEY_DELETE), tap(KEY_PASTE)].concat()));
    let back = terminal.write_paste("x".to_string(), None);
    assert_eq!(back.emission, whole(tap(KEY_PASTE)));
}

#[test]
fn write_erases_the_prompt_first() {
    let mut terminal = Terminal::new(config(OutputMethod::Type, None)).unwrap();
    type_keys(&mut terminal, &[(KEY_E, false), (KEY_C, false), (KEY_H, false), (KEY_O, false)]);
    let back = terminal.write("hi".to_string());
    assert_eq!(back.clipboard, None);
    assert_eq!(
        back.emission,
        whole([taps(KEY_DELETE, 1), taps(KEY_BACKSPACE, 5), tap(KEY_H), tap(KEY_I)].concat())
    );

    let mut terminal = Terminal::new(config(OutputMethod::Paste, None)).unwrap();
    type_keys(&mut terminal, &[(KEY_E, false), (KEY_LEFT, false)]);
    let back = terminal.write("hi".to_string());
    assert_eq!(back.clipboard, Some("hi".to_string()));
    assert_eq!(
        back.emission,
        whole([taps(KEY_DELETE, 2), taps(KEY_BACKSPACE, 1), tap(KEY_PASTE)].concat())
    );
}

#[test]
fn write_of_nothing_only_erases() {
    for method in [OutputMethod::Type, OutputMethod::Paste] {
        let mut terminal = Terminal::new(config(method, None)).unwrap();
        type_keys(&mut terminal, &[(KEY_E, false)]);
        let back = terminal.write(String::new());
        assert_eq!(back.clipboard, None);
        assert_eq!(back.skipped, Vec::<char>::new());
        assert_eq!(back.emission, whole([taps(KEY_DELETE, 1), taps(KEY_BACKSPACE, 2)].concat()));
    }
}

#[test]
fn run_builds_the_sudo_invocation() {
    let mut terminal = Terminal::new(config(OutputMethod::Type, None)).unwrap();
    type_keys(
        &mut terminal,
        &[(KEY_E, false), (KEY_C, false), (KEY_H, false), (KEY_O, false), (KEY_SPACE, false)],
    );
    type_keys(&mut terminal, &[(KEY_H, false), (KEY_I, false)]);
    assert_eq!(terminal.get_entry(), "echo hi");
    let invocation = terminal.run(1000);
    assert_eq!(invocation.program, "sudo");
    assert_eq!(invocation.args, vec!["-u", "#1000", "-i", "--", "sh", "-c", "echo hi"]);
}

#[test]
fn reset_empties_the_buffer() {
    let mut terminal = terminal();
    type_keys(&mut terminal, &[(KEY_A, false), (KEY_B, false), (KEY_LEFT, false)]);
    terminal.reset();
    assert_eq!(terminal.get_entry(), "");
    assert_eq!(terminal, Terminal::new(TerminalConfig::default()).unwrap());
    assert_eq!(terminal.handle_key(KEY_LEFT, false).flag, EventFlag::Block);
}

#[test]
fn debug_shows_entry_position_and_config() {
    let mut terminal = terminal();
    type_keys(&mut terminal, &[(KEY_A, false), (KEY_B, false), (KEY_LEFT, false)]);
    assert_eq!(
        format!("{:?}", terminal),
        format!(
            "Terminal {{ entry: {:?}, pos: {}, config: {:?} }}",
            vec!['a', 'b'],
            1,
            TerminalConfig::default()
        )
    );
}
