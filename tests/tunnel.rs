use inst_upd::tunnel::{StartFailure, StartOutcome, StartStep, StopOutcome, TunnelController};

fn launch(c: &mut TunnelController<u32>) -> Option<u64> {
    match c.begin_start("tok".to_string(), "example.org".to_string(), "localhost:8080".to_string()) {
        StartStep::Launch(req) => Some(req.session),
        StartStep::AlreadyRunning => None,
    }
}

#[test]
fn start_twice_launches_once() {
    let mut c: TunnelController<u32> = TunnelController::new();
    let step = c.begin_start("tok".to_string(), "example.org".to_string(), "localhost:8080".to_string());
    let session = match step {
        StartStep::Launch(req) => {
            assert_eq!(req.auth_token, "tok");
            assert_eq!(req.domain, "example.org");
            assert_eq!(req.forward_to, "localhost:8080");
            req.session
        }
        StartStep::AlreadyRunning => panic!("the first start must launch"),
    };
    assert!(matches!(c.finish_start(session, Ok(7)), StartOutcome::Started));
    assert!(c.is_active());
    assert_eq!(launch(&mut c), None);
    assert!(c.is_active());
}

#[test]
fn stop_twice_cancels_once() {
    let mut c: TunnelController<u32> = TunnelController::new();
    let session = launch(&mut c).unwrap();
    assert!(matches!(c.finish_start(session, Ok(42)), StartOutcome::Started));
    let mut cancelled = Vec::new();
    for _ in 0..2 {
        match c.stop() {
            StopOutcome::Stopped(handle) => cancelled.push(handle),
            StopOutcome::NotRunning => {}
        }
    }
    assert_eq!(cancelled, vec![42]);
    assert!(!c.is_active());
    assert!(matches!(c.stop(), StopOutcome::NotRunning));
}

#[test]
fn start_while_starting_is_already_running() {
    let mut c: TunnelController<u32> = TunnelController::new();
    assert_eq!(launch(&mut c), Some(0));
    assert_eq!(launch(&mut c), None);
    assert!(matches!(c.stop(), StopOutcome::NotRunning));
    assert!(!c.is_active());
}

#[test]
fn failed_start_returns_to_idle() {
    let mut c: TunnelController<u32> = TunnelController::new();
    let session = launch(&mut c).unwrap();
    match c.finish_start(session, Err("no route".to_string())) {
        StartOutcome::Failed(StartFailure::Establish(reason)) => assert_eq!(reason, "no route"),
        other => panic!("unexpected outcome {:?}", other),
    }
    assert!(!c.is_active());
    assert_eq!(launch(&mut c), Some(1));
}

#[test]
fn finish_of_unknown_session_changes_nothing() {
    let mut c: TunnelController<u32> = TunnelController::new();
    assert!(matches!(c.finish_start(0, Ok(1)), StartOutcome::Failed(StartFailure::NotStarting)));
    let session = launch(&mut c).unwrap();
    assert!(matches!(
        c.finish_start(session + 1, Ok(1)),
        StartOutcome::Failed(StartFailure::NotStarting)
    ));
    assert!(!c.is_active());
    assert!(matches!(c.finish_start(session, Ok(2)), StartOutcome::Started));
    assert!(c.is_active());
}

#[test]
fn tunnel_exit_returns_to_idle() {
    let mut c: TunnelController<u32> = TunnelController::new();
    let first = launch(&mut c).unwrap();
    assert!(matches!(c.finish_start(first, Ok(1)), StartOutcome::Started));
    assert!(!c.tunnel_exited(first + 5));
    assert!(c.is_active());
    assert!(c.tunnel_exited(first));
    assert!(!c.is_active());
    assert!(!c.tunnel_exited(first));
    assert!(matches!(c.stop(), StopOutcome::NotRunning));
    let second = launch(&mut c).unwrap();
    assert_ne!(first, second);
}
