use notify_service::{echo_of_text, handle_frame, CloseReason, Frame, Liveness, Reply};

#[test]
fn ping_yields_pong_with_same_payload_and_refreshes() {
    let mut live = Liveness::new(10);
    let r = handle_frame(&mut live, Frame::Ping(vec![1, 2, 3]), 99, true);
    assert_eq!(r, Some(Reply::Pong(vec![1, 2, 3])));
    assert_eq!(live.last_activity, 99);
}

#[test]
fn empty_ping_yields_empty_pong_and_refreshes() {
    let mut live = Liveness::new(10);
    let r = handle_frame(&mut live, Frame::Ping(Vec::new()), 42, false);
    assert_eq!(r, Some(Reply::Pong(Vec::new())));
    assert_eq!(live.last_activity, 42);
}

#[test]
fn pong_refreshes_without_reply() {
    let mut live = Liveness::new(10);
    assert_eq!(handle_frame(&mut live, Frame::Pong(vec![9]), 20, true), None);
    assert_eq!(live.last_activity, 20);
}

#[test]
fn text_is_echoed_and_refreshes() {
    let mut live = Liveness::new(10);
    let r = handle_frame(&mut live, Frame::Text(b"hello".to_vec()), 30, true);
    assert_eq!(r, Some(Reply::Text("hello".to_string())));
    assert_eq!(live.last_activity, 30);
}

#[test]
fn invalid_utf8_text_echoes_empty_text() {
    let mut live = Liveness::new(10);
    let r = handle_frame(&mut live, Frame::Text(vec![0xff, 0xfe]), 30, true);
    assert_eq!(r, Some(Reply::Text(String::new())));
    assert_eq!(echo_of_text("héllo".as_bytes().to_vec()), "héllo".to_string());
}

#[test]
fn binary_is_echoed() {
    let mut live = Liveness::new(10);
    let r = handle_frame(&mut live, Frame::Binary(vec![0, 1]), 31, true);
    assert_eq!(r, Some(Reply::Binary(vec![0, 1])));
    assert_eq!(live.last_activity, 31);
}

#[test]
fn data_echo_can_be_switched_off() {
    let mut live = Liveness::new(10);
    assert_eq!(handle_frame(&mut live, Frame::Text(b"x".to_vec()), 40, false), None);
    assert_eq!(handle_frame(&mut live, Frame::Binary(vec![1]), 41, false), None);
    assert_eq!(live.last_activity, 41);
}

#[test]
fn close_is_answered_with_matching_close() {
    let mut live = Liveness::new(10);
    let reason = CloseReason { code: 1000, description: Some("bye".to_string()) };
    let r = handle_frame(&mut live, Frame::Close(Some(reason.clone())), 50, true);
    assert_eq!(r, Some(Reply::Close(Some(reason))));
    assert_eq!(live.last_activity, 10);
    assert_eq!(handle_frame(&mut live, Frame::Close(None), 51, true), Some(Reply::Close(None)));
}

#[test]
fn unsupported_frame_is_ignored() {
    let mut live = Liveness::new(10);
    assert_eq!(handle_frame(&mut live, Frame::Unsupported, 60, true), None);
    assert_eq!(live.last_activity, 10);
}
