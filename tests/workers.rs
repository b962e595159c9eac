use inst_upd::config::{
    CameraConfig, TelegramConfig, BUF_COUNT, DEFAULT_CAMERA_DEV_IDX, DEFAULT_CAMERA_HEIGHT,
    DEFAULT_CAMERA_WIDTH,
};
use inst_upd::hub::{Hub, Received};
use inst_upd::message::{Filter, WorkerMessage};
use inst_upd::tunnel::{StartOutcome, StartStep, TunnelController};
use inst_upd::workers::{
    begin_shutdown, photo_reply, should_notify_admin, DetectorVideo, PhotoReply, SendAction, SendRetry,
    MAX_SEND_RETRIES,
};

#[test]
fn detector_with_stream_copies_each_frame() {
    let mut hub = Hub::new();
    let id = hub.register("ws", Filter::Frames).unwrap();
    let detector = DetectorVideo::new_with_rvideo(3u8);
    assert!(detector.has_stream());
    assert_eq!(detector.publish_frame(&mut hub, vec![1, 2, 3]), Some(vec![1, 2, 3]));
    match hub.try_recv(id) {
        Received::Message(WorkerMessage::Frame(bytes)) => assert_eq!(bytes, vec![1, 2, 3]),
        other => panic!("unexpected read {:?}", other),
    }
}

#[test]
fn detector_without_stream_only_publishes() {
    let mut hub = Hub::new();
    let id = hub.register("ws", Filter::Frames).unwrap();
    let mut detector: DetectorVideo<u8> = DetectorVideo::new();
    assert!(!detector.has_stream());
    assert_eq!(detector.publish_frame(&mut hub, vec![4]), None);
    assert!(matches!(hub.try_recv(id), Received::Message(_)));
    *detector.stream_mut() = Some(1);
    assert!(detector.has_stream());
}

#[test]
fn send_retry_abandons_after_five_failures() {
    let mut retry = SendRetry::new();
    for _ in 0..MAX_SEND_RETRIES {
        assert_eq!(retry.after_send(false), SendAction::RetryAfterBackoff);
    }
    assert_eq!(retry.after_send(false), SendAction::Abandon);
}

#[test]
fn send_success_resets_the_count() {
    let mut retry = SendRetry::new();
    for _ in 0..4 {
        assert_eq!(retry.after_send(false), SendAction::RetryAfterBackoff);
    }
    assert_eq!(retry.after_send(true), SendAction::Continue);
    for _ in 0..5 {
        assert_eq!(retry.after_send(false), SendAction::RetryAfterBackoff);
    }
    assert_eq!(retry.after_send(false), SendAction::Abandon);
}

fn config() -> TelegramConfig {
    TelegramConfig::new("SECRET-REDACTED".to_string(), 10, vec![20, 30])
}

#[test]
fn telegram_config_allows_the_admin() {
    let c = config();
    assert_eq!(c.allowed_user_ids, vec![20, 30, 10]);
    assert!(c.is_allowed(10));
    assert!(c.is_allowed(30));
    assert!(!c.is_allowed(40));
}

#[test]
fn camera_config_defaults() {
    let c = CameraConfig::from_settings(None, None, None);
    assert_eq!(c.width, DEFAULT_CAMERA_WIDTH);
    assert_eq!(c.height, DEFAULT_CAMERA_HEIGHT);
    assert_eq!(c.dev_idx, DEFAULT_CAMERA_DEV_IDX);
    assert_eq!(c.width, 640);
    assert_eq!(c.height, 480);
    assert_eq!(c.buf_size, BUF_COUNT);
    assert_eq!(c.fourcc, *b"MJPG");
    assert_eq!((c.interval.numerator, c.interval.denominator), (1, 30));
    let d = CameraConfig::from_settings(Some(1280), Some(720), Some(2));
    assert_eq!((d.width, d.height, d.dev_idx), (1280, 720, 2));
}

#[test]
fn photo_for_allowed_user() {
    let mut hub = Hub::new();
    let snap = hub.register("snapshot", Filter::Frames).unwrap();
    hub.publish(WorkerMessage::Frame(vec![7, 7]));
    match photo_reply(&config(), Some(20), &mut hub, snap) {
        PhotoReply::Photo(bytes) => assert_eq!(bytes, vec![7, 7]),
        other => panic!("unexpected reply {:?}", other),
    }
    assert!(matches!(photo_reply(&config(), Some(20), &mut hub, snap), PhotoReply::NoFrame));
}

#[test]
fn photo_refused_to_others() {
    let mut hub = Hub::new();
    let snap = hub.register("snapshot", Filter::Frames).unwrap();
    hub.publish(WorkerMessage::Frame(vec![1]));
    assert!(matches!(photo_reply(&config(), Some(99), &mut hub, snap), PhotoReply::NotAllowed));
    assert!(matches!(photo_reply(&config(), None, &mut hub, snap), PhotoReply::NotAllowed));
    assert!(matches!(photo_reply(&config(), Some(10), &mut hub, snap), PhotoReply::Photo(_)));
}

#[test]
fn admin_is_notified() {
    assert!(should_notify_admin());
}

#[test]
fn shutdown_closes_hub_and_stops_tunnel() {
    let mut hub = Hub::new();
    let id = hub.register("ws", Filter::Frames).unwrap();
    let mut tunnel: TunnelController<u32> = TunnelController::new();
    let session = match tunnel.begin_start(String::new(), String::new(), String::new()) {
        StartStep::Launch(req) => req.session,
        StartStep::AlreadyRunning => panic!("the first start must launch"),
    };
    assert!(matches!(tunnel.finish_start(session, Ok(11)), StartOutcome::Started));
    assert_eq!(begin_shutdown(&mut hub, &mut tunnel), Some(11));
    assert!(hub.is_closed());
    assert!(!tunnel.is_active());
    assert!(matches!(hub.try_recv(id), Received::Closed));
    assert_eq!(begin_shutdown(&mut hub, &mut tunnel), None);
}

#[test]
fn shutdown_with_idle_tunnel() {
    let mut hub = Hub::new();
    let mut tunnel: TunnelController<u32> = TunnelController::new();
    assert_eq!(begin_shutdown(&mut hub, &mut tunnel), None);
    assert!(hub.is_closed());
}
