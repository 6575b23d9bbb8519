use tracker_bridge::codec::{decode_progress_payload, decode_result_payload, decode_search_line,
    SearchEvent};

#[test]
fn unrecognized_lines_yield_no_event() {
    assert!(decode_search_line(b"").is_none());
    assert!(decode_search_line(b"hello world").is_none());
    assert!(decode_search_line(b"LOG: starting up").is_none());
    assert!(decode_search_line(b"progress:{\"step\":1}").is_none());
    assert!(decode_search_line(b"PROGRES:{\"step\":1}").is_none());
    assert!(decode_search_line(b"CONNECTED: ok").is_none());
    assert!(decode_search_line(b" PROGRESS:{\"step\":1}").is_none());
}

#[test]
fn invalid_json_after_prefix_yields_no_event() {
    assert!(decode_search_line(b"PROGRESS:").is_none());
    assert!(decode_search_line(b"PROGRESS:{not json").is_none());
    assert!(decode_search_line(b"PROGRESS:{\"step\":1,}").is_none());
    assert!(decode_search_line(b"RESULT:").is_none());
    assert!(decode_search_line(b"RESULT:[1,2").is_none());
    assert!(decode_search_line(b"RESULT:\xff\xfe").is_none());
}

#[test]
fn progress_line_decodes() {
    let line = b"PROGRESS:{\"step\":1,\"total\":4,\"remaining\":8,\"message\":\"m\"}";
    match decode_search_line(line) {
        Some(SearchEvent::Progress(p)) => {
            assert_eq!(p.step, 1);
            assert_eq!(p.total, 4);
            assert_eq!(p.remaining, 8);
            assert_eq!(p.message, "m");
            assert!(p.names.is_empty());
        }
        other => panic!("expected a progress event, got {:?}", other),
    }
}

#[test]
fn progress_names_are_kept_in_order() {
    let body = b"{\"step\":2,\"total\":4,\"remaining\":4,\"message\":\"half\",\"names\":[\"b\",\"a\"]}";
    let p = decode_progress_payload(body).expect("payload should decode");
    assert_eq!(p.names, vec!["b".to_string(), "a".to_string()]);
}

#[test]
fn progress_missing_field_yields_nothing() {
    assert!(decode_progress_payload(b"{\"step\":1,\"total\":4,\"message\":\"m\"}").is_none());
    assert!(decode_progress_payload(b"{\"total\":4,\"remaining\":8,\"message\":\"m\"}").is_none());
}

#[test]
fn progress_ill_typed_field_yields_nothing() {
    assert!(
        decode_progress_payload(b"{\"step\":\"1\",\"total\":4,\"remaining\":8,\"message\":\"m\"}")
            .is_none()
    );
    assert!(
        decode_progress_payload(b"{\"step\":1.5,\"total\":4,\"remaining\":8,\"message\":\"m\"}")
            .is_none()
    );
    assert!(
        decode_progress_payload(b"{\"step\":-1,\"total\":4,\"remaining\":8,\"message\":\"m\"}")
            .is_none()
    );
    assert!(
        decode_progress_payload(
            b"{\"step\":1,\"total\":4,\"remaining\":8,\"message\":\"m\",\"names\":[1]}"
        )
        .is_none()
    );
}

#[test]
fn progress_counter_too_large_yields_nothing() {
    assert!(
        decode_progress_payload(
            b"{\"step\":4294967296,\"total\":4,\"remaining\":8,\"message\":\"m\"}"
        )
        .is_none()
    );
    let p = decode_progress_payload(
        b"{\"step\":4294967295,\"total\":4,\"remaining\":8,\"message\":\"m\"}",
    )
    .expect("the largest u32 still fits");
    assert_eq!(p.step, u32::MAX);
}

#[test]
fn result_line_decodes_and_confirmed_defaults_to_false() {
    let line =
        b"RESULT:{\"id\":\"x\",\"username\":\"u\",\"displayName\":\"d\",\"avatar\":\"a\",\"roles\":[\"r1\"]}";
    match decode_search_line(line) {
        Some(SearchEvent::Found(rec)) => {
            assert_eq!(rec.id, "x");
            assert_eq!(rec.username, "u");
            assert_eq!(rec.display_name, "d");
            assert_eq!(rec.avatar, "a");
            assert_eq!(rec.roles, vec!["r1".to_string()]);
            assert!(!rec.confirmed);
        }
        other => panic!("expected a result event, got {:?}", other),
    }
}

#[test]
fn result_confirmed_flag_is_honoured() {
    let body = b"{\"id\":\"x\",\"username\":\"u\",\"displayName\":\"d\",\"avatar\":\"a\",\"roles\":[],\"confirmed\":true}";
    let rec = decode_result_payload(body).expect("payload should decode");
    assert!(rec.confirmed);
    assert!(rec.roles.is_empty());
}

#[test]
fn result_missing_or_ill_typed_field_yields_nothing() {
    assert!(decode_result_payload(
        b"{\"id\":\"x\",\"username\":\"u\",\"displayName\":\"d\",\"avatar\":\"a\"}"
    )
    .is_none());
    assert!(decode_result_payload(
        b"{\"id\":\"x\",\"username\":\"u\",\"display_name\":\"d\",\"avatar\":\"a\",\"roles\":[]}"
    )
    .is_none());
    assert!(decode_result_payload(
        b"{\"id\":\"x\",\"username\":\"u\",\"displayName\":\"d\",\"avatar\":\"a\",\"roles\":[\"r\"],\"confirmed\":\"yes\"}"
    )
    .is_none());
}

#[test]
fn extra_fields_are_ignored() {
    let body = b"{\"step\":1,\"total\":2,\"remaining\":3,\"message\":\"m\",\"extra\":null}";
    assert!(decode_progress_payload(body).is_some());
}
