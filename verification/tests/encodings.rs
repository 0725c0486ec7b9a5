use tvc_app::helloworld::dl::{download_reply, DlDuration, DownloadEvent};
use tvc_app::helloworld::turnkey::build_activity_body;
use tvc_app::text::u64_to_decimal;
use tvc_app::tvc_axum::response_signing::content_digest;

#[test]
fn decimal_rendering() {
    assert_eq!(u64_to_decimal(0), "0");
    assert_eq!(u64_to_decimal(7), "7");
    assert_eq!(u64_to_decimal(10), "10");
    assert_eq!(u64_to_decimal(1_700_000_000_000), "1700000000000");
    assert_eq!(u64_to_decimal(u64::MAX), "18446744073709551615");
}

#[test]
fn content_digest_known_vectors() {
    assert_eq!(content_digest(b"abc"), "sha-256=:ungWv48Bz+pBQUDeXa4iI7ADYaOWF3qctBD/YfIAFa0=:");
    assert_eq!(content_digest(b""), "sha-256=:47DEQpj8HBSa+/TImW+5JCeuQeRkm5NMpJWZG3hSuFU=:");
}

#[test]
fn download_digest_is_lower_case_hex_sha256() {
    let (code, report) = download_reply(DownloadEvent::Completed {
        status: 200,
        body: b"abc".to_vec(),
        duration: DlDuration { secs: 1, nanos: 5 },
    });
    assert_eq!(code, 200);
    assert_eq!(report.size, 3);
    assert_eq!(
        report.sha256sum,
        "ba7816bf8f01cfea414140de5dae2223b00361a396177a9cb410ff61f20015ad"
    );
}

#[test]
fn upstream_status_codes() {
    for (upstream, reply) in [(200u16, 200u16), (999, 999), (100, 100), (99, 500), (1000, 500)] {
        let (code, report) = download_reply(DownloadEvent::UpstreamStatus(upstream, "text".to_string()));
        assert_eq!(code, reply);
        assert_eq!(report.status, reply);
    }
}

#[test]
fn activity_body_escapes_json_strings() {
    let body = build_activity_body("a\"b\\c\n\u{1}é", "w", "0xDEADbeef", 5).unwrap();
    assert_eq!(
        body,
        "{\"type\":\"ACTIVITY_TYPE_SIGN_TRANSACTION_V2\",\"timestampMs\":\"5\",\
         \"organizationId\":\"a\\\"b\\\\c\\n\\u0001é\",\"parameters\":{\"signWith\":\"w\",\
         \"unsignedTransaction\":\"deadbeef\",\"type\":\"TRANSACTION_TYPE_ETHEREUM\"}}"
    );
}

#[test]
fn activity_body_lowercases_ascii_only() {
    let body = build_activity_body("o", "w", "0XABÉ", 0).unwrap();
    assert!(body.contains("\"unsignedTransaction\":\"abÉ\""));
}
