use qos_p256::{P256Pair, P256Public};
use tvc_app::helloworld::signing::{
    sign_bytes, sign_response, ResponseSigningLayer, PUBLIC_KEY_HEADER, SIGNATURE_HEADER,
};
use tvc_app::http::HttpResponse;

fn seed_of(pair: &P256Pair) -> [u8; 32] {
    **pair.to_master_seed()
}

fn header<'a>(response: &'a HttpResponse, name: &str) -> Option<&'a str> {
    response.headers.iter().find(|(n, _)| n == name).map(|(_, v)| v.as_str())
}

fn assert_signature_verifies(response: &HttpResponse) {
    let public_key_hex =
        header(response, PUBLIC_KEY_HEADER).expect("response should carry the public key header");
    let signature_hex =
        header(response, SIGNATURE_HEADER).expect("response should carry the signature header");
    let public_key_bytes = qos_hex::decode(public_key_hex).expect("public key should hex decode");
    let signature = qos_hex::decode(signature_hex).expect("signature should hex decode");
    let public_key = P256Public::from_bytes(&public_key_bytes).expect("public key should decode");
    public_key
        .verify(&response.body, &signature)
        .expect("signature should verify over the response body bytes");
}

#[test]
fn json_endpoint_body_preserved_and_signed() {
    let key = P256Pair::generate().unwrap();
    let body = br#"{"status":"healthy"}"#.to_vec();
    let headers = vec![("content-type".to_string(), "application/json".to_string())];
    let response = sign_response(200, headers, Some(body.clone()), &Ok(seed_of(&key)));

    assert_eq!(response.status, 200);
    let json: serde_json::Value =
        serde_json::from_slice(&response.body).expect("response is not valid JSON");
    assert_eq!(json["status"], "healthy");
    assert_eq!(header(&response, "content-type"), Some("application/json"));
    assert_signature_verifies(&response);
}

#[test]
fn text_endpoint_body_preserved_and_signed() {
    let key = P256Pair::generate().unwrap();
    let payload = "hello signed echo";
    let response =
        sign_response(200, Vec::new(), Some(payload.as_bytes().to_vec()), &Ok(seed_of(&key)));
    assert_eq!(response.status, 200);
    assert_eq!(response.body, payload.as_bytes());
    assert_signature_verifies(&response);
}

#[test]
fn tampered_body_fails_verification() {
    let key = P256Pair::generate().unwrap();
    let response = sign_response(
        200,
        Vec::new(),
        Some(br#"{"message":"hello world"}"#.to_vec()),
        &Ok(seed_of(&key)),
    );
    let public_key_bytes =
        qos_hex::decode(header(&response, PUBLIC_KEY_HEADER).expect("public key header"))
            .expect("hex");
    let signature =
        qos_hex::decode(header(&response, SIGNATURE_HEADER).expect("signature header"))
            .expect("hex");
    let public_key = P256Public::from_bytes(&public_key_bytes).expect("decode");
    let mut tampered = response.body.clone();
    tampered.push(b'!');
    assert!(
        public_key.verify(&tampered, &signature).is_err(),
        "signature must not verify over a modified body"
    );
}

#[test]
fn key_load_failure_keeps_response_unsigned() {
    let headers = vec![("x-a".to_string(), "1".to_string())];
    let response = sign_response(404, headers.clone(), Some(b"nope".to_vec()), &Err("gone".to_string()));
    assert_eq!(response.status, 404);
    assert_eq!(response.headers, headers);
    assert_eq!(response.body, b"nope");
}

#[test]
fn unreadable_body_goes_out_empty_and_unsigned() {
    let key = P256Pair::generate().unwrap();
    let response = sign_response(200, Vec::new(), None, &Ok(seed_of(&key)));
    assert_eq!(response.status, 200);
    assert!(response.headers.is_empty());
    assert!(response.body.is_empty());
}

#[test]
fn sign_bytes_reports_hex_key_and_signature() {
    let key = P256Pair::generate().unwrap();
    let (public_key_hex, signature_hex) = sign_bytes(b"bytes", &Ok(seed_of(&key))).unwrap();
    assert_eq!(public_key_hex, qos_hex::encode(&key.public_key().to_bytes()));
    assert_eq!(signature_hex.len(), 128);
    let signature = qos_hex::decode(&signature_hex).unwrap();
    key.public_key().verify(b"bytes", &signature).unwrap();
    assert_eq!(
        sign_bytes(b"bytes", &Err("missing".to_string())).unwrap_err(),
        "failed to load ephemeral key: missing"
    );
}

#[test]
fn layer_remembers_its_key_file() {
    let layer = ResponseSigningLayer::new("/tmp/ephemeral.secret".to_string());
    assert_eq!(layer.ephemeral_key_file(), "/tmp/ephemeral.secret");
}
