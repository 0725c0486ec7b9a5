use base64::{engine::general_purpose::STANDARD, Engine as _};
use qos_p256::{P256Pair, P256Public};
use sha2::{Digest, Sha256};
use tvc_app::http::HttpResponse;
use tvc_app::tvc_axum::response_signing::{
    content_digest, internal_error_response, signature_base, signature_input, signature_value,
    ResponseSigningLayer,
};
use tvc_app::tvc_axum::QosJson;

const SIGNATURE_COMPONENTS: &str = "(\"@method\" \"@path\" \"@status\" \"content-digest\")";

fn seed_of(pair: &P256Pair) -> [u8; 32] {
    **pair.to_master_seed()
}

fn public_key(key: &P256Pair) -> P256Public {
    P256Public::from_bytes(&key.public_key().to_bytes()).expect("public key should decode")
}

fn header_str<'a>(response: &'a HttpResponse, name: &str) -> &'a str {
    response
        .headers
        .iter()
        .find(|(n, _)| n == name)
        .map(|(_, v)| v.as_str())
        .unwrap_or_else(|| panic!("{name} header should exist"))
}

fn contains_header(response: &HttpResponse, name: &str) -> bool {
    response.headers.iter().any(|(n, _)| n == name)
}

fn label_value<'a>(header: &'a str, label: &str) -> &'a str {
    header
        .split(", ")
        .find_map(|value| value.strip_prefix(&format!("{label}=")))
        .unwrap_or_else(|| panic!("{label} value should exist"))
}

fn created_from_signature_input(input: &str, label: &str) -> u64 {
    let value = label_value(input, label);
    let created = value
        .strip_prefix(&format!("{SIGNATURE_COMPONENTS};created="))
        .and_then(|value| value.split_once(';').map(|(created, _)| created))
        .expect("created parameter should exist");
    created.parse().expect("created should be a unix timestamp")
}

fn signature_bytes(signature_header: &str, label: &str) -> Vec<u8> {
    let signature = label_value(signature_header, label)
        .strip_prefix(':')
        .and_then(|value| value.strip_suffix(':'))
        .expect("signature should be an RFC byte sequence");
    STANDARD.decode(signature).expect("signature should be base64")
}

fn expected_digest(body: &[u8]) -> String {
    format!("sha-256=:{}:", STANDARD.encode(Sha256::digest(body)))
}

fn assert_rfc_headers_absent(response: &HttpResponse) {
    assert!(!contains_header(response, "x-tvc-ephemeral-signature"));
    assert!(!contains_header(response, "x-tvc-quorum-signature"));
    assert!(!contains_header(response, "x-tvc-signature-timestamp"));
    assert!(!contains_header(response, "x-tvc-ephemeral-public-key"));
}

#[test]
fn qos_json_body_matches_qos_json_to_vec() {
    let mut map = serde_json::Map::new();
    map.insert("message".to_string(), serde_json::Value::from("hello"));
    map.insert("count".to_string(), serde_json::Value::from(42u64));
    let value = serde_json::Value::Object(map);
    let expected = qos_json::to_vec(&value).expect("qos_json should serialize");

    let response = QosJson(value).into_response(Some(expected.clone()));

    assert_eq!(response.status, 200);
    assert_eq!(header_str(&response, "content-type"), "application/json");
    assert_eq!(response.body, expected);
}

#[test]
fn qos_json_failure_is_json_error() {
    let response = QosJson(()).into_response(None);
    assert_eq!(response.status, 500);
    assert_eq!(header_str(&response, "content-type"), "application/json");
    assert_eq!(response.body, br#"{"error":"serialization failed"}"#.to_vec());
}

#[test]
fn response_signing_builder_adds_only_configured_ephemeral_signature() {
    let key = P256Pair::generate().expect("key should generate");
    let layer = ResponseSigningLayer::builder().ephemeral_key(seed_of(&key)).build();

    let response =
        layer.sign_response("GET", "/signed", 200, Vec::new(), Some(b"signed body".to_vec()));

    assert!(contains_header(&response, "content-digest"));
    assert!(contains_header(&response, "signature-input"));
    assert!(contains_header(&response, "signature"));
    assert!(!header_str(&response, "signature-input").contains("quorum="));
    assert!(!header_str(&response, "signature").contains("quorum="));
    assert_rfc_headers_absent(&response);
    assert_eq!(response.body, b"signed body");
}

#[test]
fn response_signing_builder_adds_configured_ephemeral_and_quorum_signatures() {
    let ephemeral_key = P256Pair::generate().expect("ephemeral key should generate");
    let quorum_key = P256Pair::generate().expect("quorum key should generate");
    let ephemeral_public_key = public_key(&ephemeral_key);
    let quorum_public_key = public_key(&quorum_key);
    let layer = ResponseSigningLayer::builder()
        .ephemeral_key(seed_of(&ephemeral_key))
        .quorum_key(seed_of(&quorum_key))
        .build();

    let response =
        layer.sign_response("GET", "/exact", 200, Vec::new(), Some(b"exact bytes".to_vec()));
    let digest = header_str(&response, "content-digest").to_owned();
    let signature_input_header = header_str(&response, "signature-input").to_owned();
    let signature_header = header_str(&response, "signature").to_owned();
    let created = created_from_signature_input(&signature_input_header, "ephemeral");
    assert_eq!(created_from_signature_input(&signature_input_header, "quorum"), created);
    let body = response.body.clone();
    assert_eq!(digest, expected_digest(&body));
    assert_eq!(
        signature_input_header,
        format!(
            "ephemeral={}, quorum={}",
            signature_input("ephemeral", created),
            signature_input("quorum", created)
        )
    );

    ephemeral_public_key
        .verify(
            &signature_base("GET", "/exact", 200, &digest, "ephemeral", created),
            &signature_bytes(&signature_header, "ephemeral"),
        )
        .expect("ephemeral signature should verify over signing payload");
    quorum_public_key
        .verify(
            &signature_base("GET", "/exact", 200, &digest, "quorum", created),
            &signature_bytes(&signature_header, "quorum"),
        )
        .expect("quorum signature should verify over signing payload");
}

#[test]
fn response_signature_fails_when_signed_components_are_tampered() {
    let key = P256Pair::generate().expect("key should generate");
    let public_key = public_key(&key);
    let layer = ResponseSigningLayer::builder().ephemeral_key(seed_of(&key)).build();

    let response =
        layer.sign_response("POST", "/tamper", 200, Vec::new(), Some(b"signed body".to_vec()));
    let digest = header_str(&response, "content-digest").to_owned();
    let signature_input_header = header_str(&response, "signature-input").to_owned();
    let signature_header = header_str(&response, "signature").to_owned();
    let created = created_from_signature_input(&signature_input_header, "ephemeral");
    let body = response.body.clone();
    let signature = signature_bytes(&signature_header, "ephemeral");

    public_key
        .verify(&signature_base("POST", "/tamper", 200, &digest, "ephemeral", created), &signature)
        .expect("signature should verify over expected signing payload");
    for tampered_base in [
        signature_base("GET", "/tamper", 200, &digest, "ephemeral", created),
        signature_base("POST", "/other", 200, &digest, "ephemeral", created),
        signature_base("POST", "/tamper", 404, &digest, "ephemeral", created),
        signature_base(
            "POST",
            "/tamper",
            200,
            &content_digest(b"tampered body"),
            "ephemeral",
            created,
        ),
        signature_base("POST", "/tamper", 200, &content_digest(&body), "ephemeral", created + 1),
    ] {
        assert!(
            public_key.verify(&tampered_base, &signature).is_err(),
            "tampered signature base should fail verification"
        );
    }
}

#[test]
fn content_digest_of_known_body() {
    // SHA-256 of the empty string, base64.
    assert_eq!(content_digest(b""), "sha-256=:47DEQpj8HBSa+/TImW+5JCeuQeRkm5NMpJWZG3hSuFU=:");
    assert_eq!(content_digest(b"exact bytes"), expected_digest(b"exact bytes"));
}

#[test]
fn signature_input_exact_text() {
    assert_eq!(
        signature_input("ephemeral", 1_700_000_000),
        "(\"@method\" \"@path\" \"@status\" \"content-digest\");created=1700000000;keyid=\"ephemeral\";alg=\"ecdsa-p256-sha256\""
    );
    assert_eq!(
        signature_input("quorum", 0),
        "(\"@method\" \"@path\" \"@status\" \"content-digest\");created=0;keyid=\"quorum\";alg=\"ecdsa-p256-sha256\""
    );
}

#[test]
fn signature_base_exact_text() {
    let base = signature_base("GET", "/a", 200, "sha-256=:x:", "quorum", 7);
    assert_eq!(
        String::from_utf8(base).unwrap(),
        "\"@method\": GET\n\"@path\": /a\n\"@status\": 200\n\"content-digest\": sha-256=:x:\n\"@signature-params\": (\"@method\" \"@path\" \"@status\" \"content-digest\");created=7;keyid=\"quorum\";alg=\"ecdsa-p256-sha256\""
    );
}

#[test]
fn signature_value_is_colon_wrapped_base64_of_qos_signature() {
    let key = P256Pair::generate().unwrap();
    let value = signature_value(&seed_of(&key), b"payload").expect("key should sign");
    let inner = value.strip_prefix(':').and_then(|v| v.strip_suffix(':')).unwrap();
    let signature = STANDARD.decode(inner).unwrap();
    assert_eq!(signature.len(), 64);
    public_key(&key).verify(b"payload", &signature).expect("signature should verify");
}

#[test]
fn no_keys_adds_only_the_digest() {
    let layer = ResponseSigningLayer::builder().build();
    let headers = vec![("content-type".to_string(), "text/plain".to_string())];
    let response = layer.sign_response_at("GET", "/", 201, headers, b"hi".to_vec(), Some(5));
    assert_eq!(response.status, 201);
    assert_eq!(
        response.headers,
        vec![
            ("content-type".to_string(), "text/plain".to_string()),
            ("content-digest".to_string(), expected_digest(b"hi")),
        ]
    );
    assert_eq!(response.body, b"hi");
}

#[test]
fn digest_header_replaces_an_earlier_one() {
    let layer = ResponseSigningLayer::builder().build();
    let headers = vec![
        ("content-digest".to_string(), "stale".to_string()),
        ("x-other".to_string(), "kept".to_string()),
    ];
    let response = layer.sign_response_at("GET", "/", 200, headers, b"b".to_vec(), Some(1));
    assert_eq!(
        response.headers,
        vec![
            ("x-other".to_string(), "kept".to_string()),
            ("content-digest".to_string(), expected_digest(b"b")),
        ]
    );
}

#[test]
fn missing_clock_is_an_internal_error() {
    let layer = ResponseSigningLayer::builder().build();
    let response = layer.sign_response_at("GET", "/", 200, Vec::new(), b"b".to_vec(), None);
    assert_eq!(response.status, 500);
    assert_eq!(response.body, br#"{"error":"failed to read system time"}"#.to_vec());
}

#[test]
fn unreadable_body_is_an_internal_error() {
    let layer = ResponseSigningLayer::builder().build();
    let response = layer.sign_response("GET", "/", 200, Vec::new(), None);
    assert_eq!(response.status, 500);
    assert_eq!(header_str(&response, "content-type"), "application/json");
    assert_eq!(response.body, br#"{"error":"failed to read response body"}"#.to_vec());
}

#[test]
fn internal_error_response_shape() {
    let response = internal_error_response("boom");
    assert_eq!(response.status, 500);
    assert_eq!(
        response.headers,
        vec![("content-type".to_string(), "application/json".to_string())]
    );
    assert_eq!(response.body, br#"{"error":"boom"}"#.to_vec());
}

#[test]
fn response_signing_with_only_the_quorum_key() {
    let key = P256Pair::generate().expect("key should generate");
    let layer = ResponseSigningLayer::builder().quorum_key(seed_of(&key)).build();

    let response =
        layer.sign_response("POST", "/q", 201, Vec::new(), Some(b"quorum only".to_vec()));

    let input = header_str(&response, "signature-input").to_owned();
    let signature = header_str(&response, "signature").to_owned();
    let created = created_from_signature_input(&input, "quorum");
    assert_eq!(input, format!("quorum={}", signature_input("quorum", created)));
    assert!(!input.contains("ephemeral="));
    assert!(!signature.contains("ephemeral="));
    let digest = header_str(&response, "content-digest").to_owned();
    public_key(&key)
        .verify(
            &signature_base("POST", "/q", 201, &digest, "quorum", created),
            &signature_bytes(&signature, "quorum"),
        )
        .expect("quorum signature should verify");
    assert_eq!(response.status, 201);
    assert_eq!(response.body, b"quorum only");
}

#[test]
fn signature_bases_differ_across_key_labels() {
    let ephemeral = signature_base("GET", "/a", 200, "sha-256=:x:", "ephemeral", 7);
    let quorum = signature_base("GET", "/a", 200, "sha-256=:x:", "quorum", 7);
    assert_ne!(ephemeral, quorum);
    assert_ne!(signature_input("ephemeral", 7), signature_input("quorum", 7));
    assert_ne!(signature_input("quorum", 7), signature_input("quorum", 8));
}

#[test]
fn signature_base_ends_with_signature_input() {
    let base = signature_base("GET", "/a", 200, "sha-256=:x:", "quorum", 42);
    assert!(base.ends_with(signature_input("quorum", 42).as_bytes()));
}
