use tracker_bridge::errors::CoreError;
use tracker_bridge::probe::probe_outcome;

#[test]
fn verdict_line_is_found_and_trimmed() {
    let r = probe_outcome(b"CONNECTED:  ok  \n", b"");
    assert_eq!(r, Ok(b"ok".to_vec()));
}

#[test]
fn empty_stdout_with_stderr_fails_with_the_stderr_text() {
    match probe_outcome(b"", b"boom") {
        Err(CoreError::ConnectionFailed { detail }) => assert_eq!(detail, b"boom".to_vec()),
        other => panic!("expected ConnectionFailed, got {:?}", other),
    }
}

#[test]
fn no_verdict_and_empty_stderr_embeds_the_stdout() {
    match probe_outcome(b"something went sideways", b"") {
        Err(CoreError::ConnectionFailed { detail }) => {
            let text = String::from_utf8(detail).expect("the message is UTF-8");
            assert!(text.contains("something went sideways"));
        }
        other => panic!("expected ConnectionFailed, got {:?}", other),
    }
}

#[test]
fn first_verdict_line_wins_even_after_noise() {
    let stdout = b"starting\nlog line\nCONNECTED: fine\nCONNECTED: later\n";
    assert_eq!(probe_outcome(stdout, b"ignored"), Ok(b"fine".to_vec()));
}

#[test]
fn verdict_prefix_must_start_the_line() {
    match probe_outcome(b"note: CONNECTED: ok\n", b"err") {
        Err(CoreError::ConnectionFailed { detail }) => assert_eq!(detail, b"err".to_vec()),
        other => panic!("expected ConnectionFailed, got {:?}", other),
    }
}

#[test]
fn empty_verdict_message_is_allowed() {
    assert_eq!(probe_outcome(b"CONNECTED:\n", b""), Ok(b"".to_vec()));
}
