use futures::channel::mpsc;
use notify_service::{
    clients, health, lock_unavailable, notify_machine, notify_reply, outcome_of_send, route,
    ApiResponse, NotifyMachineRequest, Registry, RouteOutcome,
};

fn request(dest: &str, sender: &str, message: &str) -> NotifyMachineRequest {
    NotifyMachineRequest {
        destination_id: dest.to_string(),
        sender_id: sender.to_string(),
        message: message.to_string(),
    }
}

#[test]
fn route_to_unregistered_identifier_is_not_connected() {
    let reg: Registry<mpsc::UnboundedSender<String>> = Registry::new();
    assert_eq!(route(&reg, &"ghost".to_string(), "x".to_string()), RouteOutcome::NotConnected);
}

#[test]
fn route_delivers_in_enqueue_order() {
    let mut reg = Registry::new();
    let (tx, mut rx) = mpsc::unbounded::<String>();
    reg.register("m1".to_string(), tx).unwrap();
    for msg in ["first", "second", "third"] {
        assert_eq!(route(&reg, &"m1".to_string(), msg.to_string()), RouteOutcome::Delivered);
    }
    assert_eq!(rx.try_recv().unwrap(), "first");
    assert_eq!(rx.try_recv().unwrap(), "second");
    assert_eq!(rx.try_recv().unwrap(), "third");
    assert!(rx.try_recv().is_err());
}

#[test]
fn route_to_closing_connection_reports_delivery_failure() {
    let mut reg = Registry::new();
    let (tx, rx) = mpsc::unbounded::<String>();
    reg.register("m1".to_string(), tx).unwrap();
    drop(rx);
    assert_eq!(
        route(&reg, &"m1".to_string(), "late".to_string()),
        RouteOutcome::DeliveryFailed("send failed because receiver is gone".to_string())
    );
}

#[test]
fn outcome_of_send_maps_each_answer() {
    assert_eq!(outcome_of_send(Ok(())), RouteOutcome::Delivered);
    assert_eq!(
        outcome_of_send(Err("gone".to_string())),
        RouteOutcome::DeliveryFailed("gone".to_string())
    );
}

#[test]
fn health_reports_running() {
    let (status, body) = health();
    assert_eq!(status, 200);
    assert_eq!(body.into_parts(), (true, "Service is running".to_string(), None, None));
}

#[test]
fn success_and_error_envelopes() {
    let ok: ApiResponse<u8, String> = ApiResponse::success("fine", Some(3));
    assert!(ok.is_success());
    assert_eq!(ok.message(), "fine");
    assert_eq!(ok.into_parts(), (true, "fine".to_string(), Some(3), None));
    let err: ApiResponse<u8, String> = ApiResponse::error("bad", "why".to_string());
    assert!(!err.is_success());
    assert_eq!(err.into_parts(), (false, "bad".to_string(), None, Some("why".to_string())));
}

#[test]
fn lock_failure_is_internal_error() {
    let (status, body) = lock_unavailable::<()>();
    assert_eq!(status, 500);
    assert_eq!(
        body.into_parts(),
        (false, "Failed to acquire state lock".to_string(), None, Some("Lock is poisoned".to_string()))
    );
}

#[test]
fn notify_reply_for_each_outcome() {
    let id = "m9".to_string();
    let (s, b) = notify_reply(RouteOutcome::Delivered, &id);
    assert_eq!(s, 200);
    assert_eq!(b.message(), "Notification sent successfully to machine with id m9");
    let (s, b) = notify_reply(RouteOutcome::NotConnected, &id);
    assert_eq!(s, 404);
    assert_eq!(
        b.into_parts(),
        (false, "Client is not connected".to_string(), None, Some("There is no socket connection with id m9".to_string()))
    );
    let (s, b) = notify_reply(RouteOutcome::DeliveryFailed("boom".to_string()), &id);
    assert_eq!(s, 500);
    assert_eq!(b.into_parts(), (false, "Failed to send message".to_string(), None, Some("boom".to_string())));
}

#[test]
fn notify_to_closed_queue_is_internal_error() {
    let mut reg = Registry::new();
    let (tx, rx) = mpsc::unbounded::<String>();
    reg.register("m1".to_string(), tx).unwrap();
    drop(rx);
    let (status, body) = notify_machine(&reg, &request("m1", "u1", "hi"));
    assert_eq!(status, 500);
    assert_eq!(
        body.into_parts(),
        (false, "Failed to send message".to_string(), None, Some("send failed because receiver is gone".to_string()))
    );
}

#[test]
fn end_to_end_notify_then_disconnect() {
    let mut reg = Registry::new();
    let (tx, mut rx) = mpsc::unbounded::<String>();
    assert_eq!(reg.register("m1".to_string(), tx), Ok(()));

    let (status, body) = notify_machine(&reg, &request("m1", "u1", "hello"));
    assert_eq!(status, 200);
    assert!(body.is_success());
    assert_eq!(rx.try_recv().unwrap(), "hello");

    let (status, body) = notify_machine(&reg, &request("m2", "u1", "hello"));
    assert_eq!(status, 404);
    assert!(!body.is_success());

    let (status, body) = clients(&reg);
    assert_eq!(status, 200);
    assert_eq!(body.into_parts().2, Some(vec!["m1".to_string()]));

    assert!(reg.unregister(&"m1".to_string()));
    let (status, body) = clients(&reg);
    assert_eq!(status, 200);
    let (success, message, data, error) = body.into_parts();
    assert!(success);
    assert_eq!(message, "List of connected clients");
    assert_eq!(data, Some(Vec::<String>::new()));
    assert_eq!(error, None);
}
