use base64::Engine;
use p256::ecdsa::{signature::Verifier, Signature, VerifyingKey};
use qos_p256::P256Pair;
use tvc_app::helloworld::turnkey::{
    build_activity_body, sign_turnkey_transaction, stamp_activity_body,
    SignTurnkeyTransactionRequest,
};

fn seed_of(pair: &P256Pair) -> [u8; 32] {
    **pair.to_master_seed()
}

#[test]
fn activity_body_matches_turnkey_sign_transaction_v2_shape() {
    let body = build_activity_body(
        "org-123",
        "0xabc0000000000000000000000000000000000001",
        "0xDEADBEEF",
        1_700_000_000_000,
    )
    .unwrap();
    let activity: serde_json::Value = serde_json::from_str(&body).unwrap();

    assert_eq!(activity["type"], "ACTIVITY_TYPE_SIGN_TRANSACTION_V2");
    assert_eq!(activity["timestampMs"], "1700000000000");
    assert_eq!(activity["organizationId"], "org-123");
    assert_eq!(
        activity["parameters"]["signWith"],
        "0xabc0000000000000000000000000000000000001"
    );
    assert_eq!(activity["parameters"]["unsignedTransaction"], "deadbeef");
    assert_eq!(activity["parameters"]["type"], "TRANSACTION_TYPE_ETHEREUM");
}

#[test]
fn stamp_signs_exact_activity_body_with_derived_p256_key() {
    let quorum_key = P256Pair::generate().unwrap();
    let body = r#"{"type":"ACTIVITY_TYPE_SIGN_TRANSACTION_V2"}"#;
    let x_stamp = stamp_activity_body(&seed_of(&quorum_key), body).unwrap();
    let envelope_bytes = base64::engine::general_purpose::URL_SAFE_NO_PAD
        .decode(x_stamp)
        .unwrap();
    let envelope: serde_json::Value = serde_json::from_slice(&envelope_bytes).unwrap();

    assert_eq!(envelope["scheme"], "SIGNATURE_SCHEME_TK_API_P256");
    let public_key = qos_hex::decode(envelope["publicKey"].as_str().unwrap()).unwrap();
    let signature = qos_hex::decode(envelope["signature"].as_str().unwrap()).unwrap();
    let verifying_key = VerifyingKey::from_sec1_bytes(&public_key).unwrap();
    let signature = Signature::from_der(&signature).unwrap();

    verifying_key.verify(body.as_bytes(), &signature).unwrap();
    assert!(verifying_key.verify(b"modified body", &signature).is_err());
}

#[test]
fn activity_body_exact_text() {
    let body = build_activity_body(
        "org-123",
        "0xabc0000000000000000000000000000000000001",
        "0xdeadbeef",
        1_700_000_000_000,
    )
    .unwrap();
    assert_eq!(
        body,
        r#"{"type":"ACTIVITY_TYPE_SIGN_TRANSACTION_V2","timestampMs":"1700000000000","organizationId":"org-123","parameters":{"signWith":"0xabc0000000000000000000000000000000000001","unsignedTransaction":"deadbeef","type":"TRANSACTION_TYPE_ETHEREUM"}}"#
    );
}

#[test]
fn activity_body_escapes_strings_and_keeps_unprefixed_transactions() {
    let body = build_activity_body("org \"q\"\n", "w\\", "0XAbC", 0).unwrap();
    let activity: serde_json::Value = serde_json::from_str(&body).unwrap();
    assert_eq!(activity["organizationId"], "org \"q\"\n");
    assert_eq!(activity["parameters"]["signWith"], "w\\");
    assert_eq!(activity["parameters"]["unsignedTransaction"], "abc");
    assert_eq!(activity["timestampMs"], "0");
    assert!(body.contains(r#""organizationId":"org \"q\"\n""#));

    let body = build_activity_body("o", "s", "02F86C", 1).unwrap();
    let activity: serde_json::Value = serde_json::from_str(&body).unwrap();
    assert_eq!(activity["parameters"]["unsignedTransaction"], "02f86c");
    let body = build_activity_body("o", "s", "0", 1).unwrap();
    let activity: serde_json::Value = serde_json::from_str(&body).unwrap();
    assert_eq!(activity["parameters"]["unsignedTransaction"], "0");
}

#[test]
fn turnkey_sign_transaction_returns_verifiable_quorum_stamp() {
    let quorum_key = P256Pair::generate().unwrap();
    let request = SignTurnkeyTransactionRequest {
        organization_id: "organization-id".to_string(),
        sign_with: "0x1234".to_string(),
        unsigned_transaction: "0x02f86c".to_string(),
        timestamp_ms: 1_700_000_000_000,
    };
    let response = sign_turnkey_transaction(&seed_of(&quorum_key), &request)
        .unwrap_or_else(|_| panic!("signing should succeed"));

    let activity: serde_json::Value = serde_json::from_str(&response.activity_body).unwrap();
    assert_eq!(activity["type"], "ACTIVITY_TYPE_SIGN_TRANSACTION_V2");
    assert_eq!(activity["timestampMs"], "1700000000000");
    assert_eq!(activity["organizationId"], "organization-id");
    assert_eq!(activity["parameters"]["signWith"], "0x1234");
    assert_eq!(activity["parameters"]["unsignedTransaction"], "02f86c");
    assert_eq!(activity["parameters"]["type"], "TRANSACTION_TYPE_ETHEREUM");

    let envelope_bytes = base64::engine::general_purpose::URL_SAFE_NO_PAD
        .decode(&response.x_stamp)
        .expect("xStamp should be base64url without padding");
    let stamp: serde_json::Value = serde_json::from_slice(&envelope_bytes).unwrap();
    assert_eq!(stamp["scheme"], "SIGNATURE_SCHEME_TK_API_P256");
    let public_key = qos_hex::decode(stamp["publicKey"].as_str().unwrap()).unwrap();
    let signature = qos_hex::decode(stamp["signature"].as_str().unwrap()).unwrap();
    let verifying_key = VerifyingKey::from_sec1_bytes(&public_key).unwrap();
    let signature = Signature::from_der(&signature).expect("signature should be DER encoded");
    verifying_key
        .verify(response.activity_body.as_bytes(), &signature)
        .expect("quorum signature should verify over the exact activityBody");
}

#[test]
fn derived_api_key_is_stable_for_a_quorum_key() {
    let quorum_key = P256Pair::generate().unwrap();
    let seed = seed_of(&quorum_key);
    let decode = |stamp: String| -> serde_json::Value {
        let bytes = base64::engine::general_purpose::URL_SAFE_NO_PAD.decode(stamp).unwrap();
        serde_json::from_slice(&bytes).unwrap()
    };
    let a = decode(stamp_activity_body(&seed, "first").unwrap());
    let b = decode(stamp_activity_body(&seed, "second").unwrap());
    assert_eq!(a["publicKey"], b["publicKey"]);
    assert_ne!(a["signature"], b["signature"]);
    let other = decode(stamp_activity_body(&seed_of(&P256Pair::generate().unwrap()), "first").unwrap());
    assert_ne!(a["publicKey"], other["publicKey"]);
    // Deterministic ECDSA: the same body gives the same stamp.
    assert_eq!(
        stamp_activity_body(&seed, "first").unwrap(),
        stamp_activity_body(&seed, "first").unwrap()
    );
}

#[test]
fn stamp_key_is_derived_along_the_template_path() {
    let quorum_key = P256Pair::generate().unwrap();
    let stamp = stamp_activity_body(&seed_of(&quorum_key), "body").unwrap();
    let bytes = base64::engine::general_purpose::URL_SAFE_NO_PAD.decode(stamp).unwrap();
    let envelope: serde_json::Value = serde_json::from_slice(&bytes).unwrap();

    let secret = qos_p256::derive_secret(quorum_key.to_master_seed(), b"tvc-template-turnkey-api-key-v1")
        .unwrap();
    let signing_key = p256::ecdsa::SigningKey::from_slice(&secret[..]).unwrap();
    let expected = qos_hex::encode(signing_key.verifying_key().to_encoded_point(true).as_bytes());
    assert_eq!(envelope["publicKey"], expected.as_str());
    assert_eq!(
        String::from_utf8(bytes).unwrap(),
        format!(
            r#"{{"publicKey":"{}","scheme":"SIGNATURE_SCHEME_TK_API_P256","signature":"{}"}}"#,
            expected,
            envelope["signature"].as_str().unwrap()
        )
    );
}

#[test]
fn turnkey_errors_become_internal_json_errors() {
    let error = tvc_app::helloworld::response::AppError::internal(
        "failed to construct Turnkey API key: signature error".to_string(),
    );
    let response = error.into_response();
    assert_eq!(response.status, 500);
    assert_eq!(
        response.body,
        br#"{"error":"failed to construct Turnkey API key: signature error"}"#.to_vec()
    );
}
