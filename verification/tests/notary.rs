use tvc_app::notary::AppState;
use tvc_app::reply::{echo, health, hello_world, time, time_at, Reply, ReplyBody};

fn receipt(reply: &Reply) -> (String, u64, u64) {
    match &reply.body {
        ReplyBody::Receipt { hash, timestamp, receipt_id } => (hash.clone(), *timestamp, *receipt_id),
        _ => panic!("expected a receipt"),
    }
}

fn error(reply: &Reply) -> String {
    match &reply.body {
        ReplyBody::Error { error } => error.clone(),
        _ => panic!("expected an error"),
    }
}

fn total(reply: &Reply) -> u64 {
    match &reply.body {
        ReplyBody::Stats { total_notarized } => *total_notarized,
        _ => panic!("expected stats"),
    }
}

#[test]
fn router_test_health() {
    let reply = health();
    assert_eq!(reply.status, 200);
    assert!(matches!(reply.body, ReplyBody::Health));
}

#[test]
fn router_test_hello_world() {
    let reply = hello_world();
    assert_eq!(reply.status, 200);
    assert!(matches!(reply.body, ReplyBody::HelloWorld));
}

#[test]
fn router_test_time() {
    let reply = time();
    assert_eq!(reply.status, 200);
    assert!(matches!(reply.body, ReplyBody::Time { .. }), "time field should be a number");
}

#[test]
fn time_reports_clock_errors() {
    let reply = time_at(Err("second time provided was later than self".to_string()));
    assert_eq!(reply.status, 500);
    assert_eq!(error(&reply), "system clock error: second time provided was later than self");
    let reply = time_at(Ok(1741048558));
    assert!(matches!(reply.body, ReplyBody::Time { time: 1741048558 }));
}

#[test]
fn router_test_echo_text() {
    let (status, body) = echo(b"hello echo".to_vec());
    assert_eq!(status, 200);
    assert_eq!(String::from_utf8(body).unwrap(), "hello echo");
}

#[test]
fn router_test_echo_empty() {
    let (status, body) = echo(Vec::new());
    assert_eq!(status, 200);
    assert_eq!(String::from_utf8(body).unwrap(), "");
}

#[test]
fn router_test_echo_json() {
    let (status, body) = echo(br#"{"foo":"bar"}"#.to_vec());
    assert_eq!(status, 200);
    assert_eq!(String::from_utf8(body).unwrap(), r#"{"foo":"bar"}"#);
}

#[test]
fn test_notarize_success() {
    let mut state = AppState::new();
    let reply = state.notarize("abc123".to_string());
    assert_eq!(reply.status, 200);
    let (hash, _timestamp, receipt_id) = receipt(&reply);
    assert_eq!(hash, "abc123");
    assert_eq!(receipt_id, 0);
}

#[test]
fn router_test_notarize_empty_hash_returns_400() {
    let mut state = AppState::new();
    let reply = state.notarize(String::new());
    assert_eq!(reply.status, 400);
    assert_eq!(error(&reply), "hash must not be empty");
    assert_eq!(state.next_receipt_id(), 0);
}

#[test]
fn notarize_clock_error_returns_500_and_keeps_state() {
    let mut state = AppState::new();
    let reply = state.notarize_at("h".to_string(), Err("clock".to_string()));
    assert_eq!(reply.status, 500);
    assert_eq!(error(&reply), "system clock error: clock");
    assert_eq!(total(&state.stats()), 0);
}

#[test]
fn test_notarize_sequential_receipt_ids() {
    let mut state = AppState::new();
    let first = state.notarize("first".to_string());
    assert_eq!(receipt(&first).2, 0);
    let second = state.notarize("second".to_string());
    assert_eq!(receipt(&second).2, 1);
}

#[test]
fn test_verify_existing_receipt() {
    let mut state = AppState::new();
    state.notarize_at("doc_hash_xyz".to_string(), Ok(1_700_000_000));
    let reply = state.verify(0);
    assert_eq!(reply.status, 200);
    let (hash, timestamp, receipt_id) = receipt(&reply);
    assert_eq!(receipt_id, 0);
    assert_eq!(hash, "doc_hash_xyz");
    assert_eq!(timestamp, 1_700_000_000);
}

#[test]
fn test_verify_nonexistent_receipt_returns_404() {
    let state = AppState::new();
    let reply = state.verify(999);
    assert_eq!(reply.status, 404);
    assert_eq!(error(&reply), "receipt not found");
}

#[test]
fn test_stats_empty() {
    let state = AppState::new();
    let reply = state.stats();
    assert_eq!(reply.status, 200);
    assert_eq!(total(&reply), 0);
}

#[test]
fn test_stats_after_notarize() {
    let mut state = AppState::new();
    for hash in ["hash1", "hash2"] {
        state.notarize(hash.to_string());
    }
    let reply = state.stats();
    assert_eq!(reply.status, 200);
    assert_eq!(total(&reply), 2);
}

#[test]
fn verify_after_notarize_leaves_other_receipts() {
    let mut state = AppState::new();
    state.notarize_at("a".to_string(), Ok(10));
    state.notarize_at("b".to_string(), Ok(20));
    state.notarize_at("".to_string(), Ok(30));
    assert_eq!(receipt(&state.verify(0)), ("a".to_string(), 10, 0));
    assert_eq!(receipt(&state.verify(1)), ("b".to_string(), 20, 1));
    assert_eq!(state.verify(2).status, 404);
    assert_eq!(state.next_receipt_id(), 2);
}
