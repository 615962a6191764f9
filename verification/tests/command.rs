use shiv::command::{failure_text, join_output, output_text, sudo_invocation, uid_argument};

#[test]
fn uid_argument_is_a_hash_and_the_decimal_id() {
    assert_eq!(uid_argument(0), "#0");
    assert_eq!(uid_argument(7), "#7");
    assert_eq!(uid_argument(10), "#10");
    assert_eq!(uid_argument(1000), "#1000");
    assert_eq!(uid_argument(65534), "#65534");
    assert_eq!(uid_argument(u32::MAX), "#4294967295");
    for uid in [0, 1, 9, 10, 11, 99, 100, 101, 1001, 12345, 4294967294] {
        assert_eq!(uid_argument(uid), format!("#{}", uid));
    }
}

#[test]
fn sudo_invocation_keeps_the_entry_as_one_argument() {
    let pre_cmd = vec!["bash".to_string(), "-c".to_string()];
    let invocation = sudo_invocation(501, &pre_cmd, "ls -l 'a b'; echo $HOME".to_string());
    assert_eq!(invocation.program, "sudo");
    assert_eq!(
        invocation.args,
        vec!["-u", "#501", "-i", "--", "bash", "-c", "ls -l 'a b'; echo $HOME"]
    );
    let invocation = sudo_invocation(0, &vec!["figlet".to_string()], String::new());
    assert_eq!(invocation.args, vec!["-u", "#0", "-i", "--", "figlet", ""]);
}

#[test]
fn output_is_stdout_then_stderr() {
    assert_eq!(output_text(b"hi\n", b""), "hi\n");
    assert_eq!(output_text(b"out\n", b"err\n"), "out\nerr\n");
    assert_eq!(output_text(b"", b"sh: 1: nope: not found\n"), "sh: 1: nope: not found\n");
    assert_eq!(output_text(b"", b""), "");
    assert_eq!(output_text("h\u{e9}\u{20ac}".as_bytes(), b"!"), "h\u{e9}\u{20ac}!");
}

#[test]
fn output_with_bad_bytes_is_patched_not_refused() {
    assert_eq!(output_text(b"a\xffb", b""), "a\u{fffd}b");
    assert_eq!(output_text(b"\xc3", b"\xa9"), "\u{fffd}\u{fffd}");
    assert_eq!(output_text(b"ok", b"\xe2\x82"), "ok\u{fffd}");
    assert_eq!(output_text(b"\xf0\x9f\x98", b"x"), String::from_utf8_lossy(b"\xf0\x9f\x98").to_string() + "x");
}

#[test]
fn join_output_concatenates() {
    assert_eq!(join_output("a".to_string(), "b".to_string()), "ab");
    assert_eq!(join_output(String::new(), "b".to_string()), "b");
    assert_eq!(join_output("a".to_string(), String::new()), "a");
}

#[test]
fn failure_text_names_the_reason() {
    assert_eq!(failure_text("No such file or directory"), "Command failed: No such file or directory");
    assert_eq!(failure_text(""), "Command failed: ");
}
