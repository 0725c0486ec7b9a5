use tvc_app::helloworld::cli::Cli;
use tvc_app::helloworld::diagnostics::{
    ip_check_reply, reqwest_error_kind, IpCheckReply, RequestErrorKinds,
};
use tvc_app::helloworld::dl::{download_reply, DlDuration, DlResponse, DownloadEvent};
use tvc_app::helloworld::response::{AppError, QosJson};
use tvc_app::tvc_axum::qos_json_response;

fn kinds(timeout: bool, connect: bool, redirect: bool, decode: bool, body: bool) -> RequestErrorKinds {
    RequestErrorKinds { timeout, connect, redirect, decode, body }
}

#[test]
fn request_error_kinds_in_priority_order() {
    assert_eq!(reqwest_error_kind(&kinds(true, true, true, true, true)), "timeout");
    assert_eq!(reqwest_error_kind(&kinds(false, true, true, false, false)), "connect");
    assert_eq!(reqwest_error_kind(&kinds(false, false, true, true, false)), "redirect");
    assert_eq!(reqwest_error_kind(&kinds(false, false, false, true, true)), "decode");
    assert_eq!(reqwest_error_kind(&kinds(false, false, false, false, true)), "body");
    assert_eq!(reqwest_error_kind(&kinds(false, false, false, false, false)), "other");
}

#[test]
fn ip_check_replies() {
    let (status, reply) = ip_check_reply("http://1.1.1.1/", Ok(301));
    assert_eq!(status, 200);
    match reply {
        IpCheckReply::Reached { requested_url, upstream_status } => {
            assert_eq!(requested_url, "http://1.1.1.1/");
            assert_eq!(upstream_status, 301);
        }
        _ => panic!("expected a reached reply"),
    }
    let (status, reply) =
        ip_check_reply("https://1.1.1.1/", Err((kinds(false, true, false, false, false), "refused".to_string())));
    assert_eq!(status, 502);
    match reply {
        IpCheckReply::Failed { requested_url, failure_kind, request_error } => {
            assert_eq!(requested_url, "https://1.1.1.1/");
            assert_eq!(failure_kind, "connect");
            assert_eq!(request_error, "refused");
        }
        _ => panic!("expected a failed reply"),
    }
}

#[test]
fn download_replies() {
    let (code, report) = download_reply(DownloadEvent::Completed {
        status: 200,
        body: b"abc".to_vec(),
        duration: DlDuration { secs: 1, nanos: 5 },
    });
    assert_eq!(code, 200);
    assert_eq!(report.size, 3);
    assert_eq!(report.duration.secs, 1);
    assert_eq!(report.duration.nanos, 5);
    assert_eq!(
        report.sha256sum,
        "ba7816bf8f01cfea414140de5dae2223b00361a396177a9cb410ff61f20015ad"
    );
    assert!(report.error.is_none());

    let (code, report) = download_reply(DownloadEvent::UpstreamStatus(404, "Not Found".to_string()));
    assert_eq!((code, report.status, report.error.as_deref()), (404, 404, Some("Not Found")));
    let (code, report) = download_reply(DownloadEvent::UpstreamStatus(42, "odd".to_string()));
    assert_eq!((code, report.status), (500, 500));
    let (code, _) = download_reply(DownloadEvent::BadOverride("invalid socket address syntax".to_string()));
    assert_eq!(code, 400);
    let (code, _) = download_reply(DownloadEvent::Transport("dns".to_string()));
    assert_eq!(code, 500);
    let (code, _) = download_reply(DownloadEvent::UnreadableBody("utf8".to_string()));
    assert_eq!(code, 400);
    let (code, report) = download_reply(DownloadEvent::TaskFailed("panicked".to_string()));
    assert_eq!(code, 500);
    assert_eq!(report.size, 0);
    assert!(report.sha256sum.is_empty());
}

#[test]
fn dl_error_report() {
    let report = DlResponse::error(502, "bad gateway".to_string());
    assert_eq!(report.status, 502);
    assert_eq!(report.size, 0);
    assert_eq!((report.duration.secs, report.duration.nanos), (0, 0));
    assert_eq!(report.error.as_deref(), Some("bad gateway"));
}

#[test]
fn app_error_response_is_canonical_json() {
    let response = AppError::internal("bad \"thing\"".to_string()).into_response();
    assert_eq!(response.status, 500);
    assert_eq!(
        response.headers,
        vec![("content-type".to_string(), "application/json".to_string())]
    );
    assert_eq!(response.body, br#"{"error":"bad \"thing\""}"#.to_vec());
}

#[test]
fn helloworld_qos_json_responses() {
    let ok = QosJson(()).into_response(Ok(br#"{"status":"healthy"}"#.to_vec()));
    assert_eq!(ok.status, 200);
    assert_eq!(ok.body, br#"{"status":"healthy"}"#.to_vec());
    let failed = QosJson(()).into_response(Err("float".to_string()));
    assert_eq!(failed.status, 500);
    assert_eq!(failed.body, br#"{"error":"failed to serialize response: float"}"#.to_vec());
}

#[test]
fn qos_json_response_uses_canonical_json_and_content_type() {
    let mut map = serde_json::Map::new();
    map.insert("z_value".to_string(), serde_json::Value::from("last"));
    map.insert("count".to_string(), serde_json::Value::from(42u64));
    map.insert("a_value".to_string(), serde_json::Value::from("first"));
    let value = serde_json::Value::Object(map);
    let bytes = qos_json::to_vec(&value).map_err(|e| e.to_string());
    let response = qos_json_response::QosJson(value).into_response(bytes);

    assert_eq!(response.status, 200);
    assert_eq!(
        response.headers,
        vec![("content-type".to_string(), "application/json".to_string())]
    );
    assert_eq!(response.body, br#"{"a_value":"first","count":"42","z_value":"last"}"#.to_vec());
}

#[test]
fn qos_json_response_failure_is_plain_text() {
    let response = qos_json_response::QosJson(()).into_response(Err("boom".to_string()));
    assert_eq!(response.status, 500);
    assert_eq!(
        response.headers,
        vec![("content-type".to_string(), "text/plain; charset=utf-8".to_string())]
    );
    assert_eq!(response.body, b"failed to serialize QOS JSON response: boom".to_vec());
}

#[test]
fn cli_listen_address() {
    let cli = Cli {
        host: "127.0.0.1".to_string(),
        port: 44020,
        quorum_file: "q".to_string(),
        ephemeral_file: "e".to_string(),
        manifest_file: "m".to_string(),
        unsafe_mock_nsm: false,
    };
    assert_eq!(cli.listen_address(), "127.0.0.1:44020");
}

#[test]
fn failed_download_reports_zero_duration() {
    let (code, report) = download_reply(DownloadEvent::BadOverride("invalid socket address syntax".to_string()));
    assert_eq!(code, 400);
    assert_eq!(report.status, 400);
    assert_eq!(report.size, 0);
    assert_eq!((report.duration.secs, report.duration.nanos), (0, 0));
    assert_eq!(report.sha256sum, "");
    assert_eq!(report.error.as_deref(), Some("invalid socket address syntax"));
}
