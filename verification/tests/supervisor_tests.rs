use tracker_bridge::config::{default_proxy_host, default_proxy_port, RunConfig};
use tracker_bridge::errors::CoreError;
use tracker_bridge::launcher::{packaged_candidates, DeployMode};
use tracker_bridge::supervisor::{StepOutcome, Supervisor};

fn sample_config() -> RunConfig {
    RunConfig {
        token: b"tok".to_vec(),
        server_id: b"srv".to_vec(),
        role_ids: vec![b"r1".to_vec()],
        target_channel_id: b"chan".to_vec(),
        test_message: b"hi".to_vec(),
        timeout: 10,
        webhook_url: Vec::new(),
        send_channel_id: Vec::new(),
        proxy_enabled: false,
        proxy_host: default_proxy_host(),
        proxy_port: default_proxy_port(),
    }
}

#[test]
fn begin_claims_the_guard_and_hands_back_path_and_wire() {
    let mut sup = Supervisor::new();
    let cands = packaged_candidates(None, None, Some(b"/app".to_vec()));
    let exists = vec![true, false];
    let (path, wire) = sup
        .begin(&sample_config(), DeployMode::Packaged, &cands, &exists)
        .expect("a candidate exists");
    assert_eq!(path, b"/app/resources/tracker.exe".to_vec());
    let text = String::from_utf8(wire).unwrap();
    assert!(text.starts_with("{\"token\":\"tok\","));
    // The guard is now held.
    assert_eq!(
        sup.begin(&sample_config(), DeployMode::Packaged, &cands, &exists),
        Err(CoreError::AlreadyRunning)
    );
    assert_eq!(sup.finish(), None);
}

#[test]
fn begin_releases_the_guard_when_the_worker_is_missing() {
    let mut sup = Supervisor::new();
    let cands = packaged_candidates(None, None, Some(b"/app".to_vec()));
    let exists = vec![false, false];
    match sup.begin(&sample_config(), DeployMode::Packaged, &cands, &exists) {
        Err(CoreError::WorkerNotFound { .. }) => {}
        other => panic!("expected WorkerNotFound, got {:?}", other),
    }
    // The failed begin did not leave the guard set.
    assert!(sup
        .begin(&sample_config(), DeployMode::Development, &Vec::new(), &Vec::new())
        .is_ok());
    assert_eq!(sup.finish(), None);
}

#[test]
fn second_start_is_rejected_and_guard_is_released() {
    let mut sup = Supervisor::new();
    assert!(sup.try_start().is_ok());
    assert_eq!(sup.try_start(), Err(CoreError::AlreadyRunning));
    // Natural completion clears the guard; after it a start succeeds again.
    assert_eq!(sup.finish(), None);
    assert!(sup.try_start().is_ok());
    assert_eq!(sup.finish(), None);
}

#[test]
fn simulated_run_returns_the_result_and_emits_one_progress() {
    let mut sup = Supervisor::new();
    assert!(sup.try_start().is_ok());

    let lines: [&[u8]; 2] = [
        b"PROGRESS:{\"step\":1,\"total\":4,\"remaining\":8,\"message\":\"m\"}",
        b"RESULT:{\"id\":\"x\",\"username\":\"u\",\"displayName\":\"d\",\"avatar\":\"a\",\"roles\":[\"r1\"]}",
    ];
    let mut emitted = Vec::new();
    for line in lines {
        match sup.on_line(line) {
            StepOutcome::Stopped => panic!("the run was not stopped"),
            StepOutcome::Emit(p) => emitted.push(p),
            StepOutcome::NoEmit => {}
        }
    }
    // Stream end: the loop exits and the run finishes.
    let result = sup.finish().expect("a result line arrived before stream end");
    assert_eq!(result.id, "x");
    assert_eq!(result.username, "u");
    assert_eq!(result.display_name, "d");
    assert_eq!(result.avatar, "a");
    assert_eq!(result.roles, vec!["r1".to_string()]);
    assert!(!result.confirmed);

    assert_eq!(emitted.len(), 1);
    assert_eq!(emitted[0].step, 1);
    assert_eq!(emitted[0].total, 4);
    assert_eq!(emitted[0].remaining, 8);
    assert_eq!(emitted[0].message, "m");
}

#[test]
fn consume_stream_keeps_stream_order_and_last_result_wins() {
    let mut sup = Supervisor::new();
    assert!(sup.try_start().is_ok());
    let lines: Vec<Vec<u8>> = vec![
        b"noise".to_vec(),
        b"PROGRESS:{\"step\":1,\"total\":3,\"remaining\":6,\"message\":\"one\"}".to_vec(),
        b"PROGRESS:{broken".to_vec(),
        b"RESULT:{\"id\":\"old\",\"username\":\"u\",\"displayName\":\"d\",\"avatar\":\"a\",\"roles\":[]}"
            .to_vec(),
        b"PROGRESS:{\"step\":2,\"total\":3,\"remaining\":3,\"message\":\"two\"}".to_vec(),
        b"RESULT:{\"id\":\"new\",\"username\":\"u\",\"displayName\":\"d\",\"avatar\":\"a\",\"roles\":[]}"
            .to_vec(),
    ];
    let emitted = sup.consume_stream(&lines);
    let steps: Vec<u32> = emitted.iter().map(|p| p.step).collect();
    assert_eq!(steps, vec![1, 2]);
    assert_eq!(emitted[0].message, "one");
    assert_eq!(emitted[1].message, "two");
    let result = sup.finish().expect("a result line arrived");
    assert_eq!(result.id, "new");
}

#[test]
fn stop_between_lines_halts_the_run_and_unblocks_start() {
    let mut sup = Supervisor::new();
    assert!(sup.try_start().is_ok());
    assert!(matches!(
        sup.on_line(b"PROGRESS:{\"step\":1,\"total\":2,\"remaining\":2,\"message\":\"m\"}"),
        StepOutcome::Emit(_)
    ));

    // Stop arrives between two lines.
    sup.stop();

    // The next line is not consumed: the loop must return.
    let next: &[u8] =
        b"RESULT:{\"id\":\"x\",\"username\":\"u\",\"displayName\":\"d\",\"avatar\":\"a\",\"roles\":[]}";
    assert!(matches!(sup.on_line(next), StepOutcome::Stopped));

    // No result line was retained, so the run returns None...
    assert_eq!(sup.finish(), None);
    // ...and a subsequent start is immediately unblocked.
    assert!(sup.try_start().is_ok());
    assert_eq!(sup.finish(), None);
}

#[test]
fn last_result_wins() {
    let mut sup = Supervisor::new();
    assert!(sup.try_start().is_ok());
    let first: &[u8] =
        b"RESULT:{\"id\":\"1\",\"username\":\"u\",\"displayName\":\"d\",\"avatar\":\"a\",\"roles\":[]}";
    let second: &[u8] =
        b"RESULT:{\"id\":\"2\",\"username\":\"u\",\"displayName\":\"d\",\"avatar\":\"a\",\"roles\":[]}";
    assert!(matches!(sup.on_line(first), StepOutcome::NoEmit));
    assert!(matches!(sup.on_line(second), StepOutcome::NoEmit));
    let result = sup.finish().expect("a result was retained");
    assert_eq!(result.id, "2");
}

#[test]
fn malformed_lines_keep_the_run_alive() {
    let mut sup = Supervisor::new();
    assert!(sup.try_start().is_ok());
    assert!(matches!(sup.on_line(b"PROGRESS:{broken"), StepOutcome::NoEmit));
    assert!(matches!(sup.on_line(b"noise"), StepOutcome::NoEmit));
    assert!(matches!(
        sup.on_line(b"PROGRESS:{\"step\":2,\"total\":2,\"remaining\":1,\"message\":\"ok\"}"),
        StepOutcome::Emit(_)
    ));
    assert_eq!(sup.finish(), None);
}

#[test]
fn stop_when_idle_is_a_harmless_no_op() {
    let mut sup = Supervisor::new();
    sup.stop();
    sup.stop();
    // The supervisor is still usable exactly as a fresh one.
    assert!(sup.try_start().is_ok());
    sup.stop();
    assert_eq!(sup.finish(), None);
    assert!(sup.try_start().is_ok());
    assert_eq!(sup.finish(), None);
}

#[test]
fn spawn_failure_releases_the_guard() {
    let mut sup = Supervisor::new();
    assert!(sup.try_start().is_ok());
    let e = sup.spawn_failed(b"os error 2".to_vec());
    assert_eq!(e, CoreError::SpawnFailed { detail: b"os error 2".to_vec() });
    // The guard was released on the failure path.
    assert!(sup.try_start().is_ok());
    assert_eq!(sup.finish(), None);
}
