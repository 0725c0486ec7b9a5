//! Turnkey `SIGN_TRANSACTION_V2` activities and their API-key stamps.
//!
//! The activity body is JSON text that the enclave returns verbatim; the
//! stamp signs exactly those bytes with a P-256 API key derived from the
//! quorum key along a fixed path, so the key is stable for a given quorum
//! key.

use vstd::prelude::*;
use vstd::string::{StrSliceExecFns, StringExecFns};
use vstd::utf8::encode_utf8;
use crate::codec::{
    ascii_lower, base64_encode, base64_url_no_pad, hex_encode, hex_lower, json_error_text,
    json_escape, json_quoted, json_string, lemma_encode_utf8_len, lemma_hex_lower_len,
    lemma_json_escape_len, lemma_json_quoted_injective, to_ascii_lowercase,
};
use crate::helloworld::response::AppError;
use crate::keys::{
    p256_compressed_public, p256_compressed_public_key, p256_der_signature, p256_sign_der,
    qos_p256_derive_secret, qos_p256_derived_secret,
};
use crate::text::{decimal, push_decimal};

verus! {

/// `s` without a leading `0x` or `0X`.
pub open spec fn strip_hex_prefix(s: Seq<char>) -> Seq<char> {
    if s.len() >= 2 && s[0] == '0' && (s[1] == 'x' || s[1] == 'X') {
        s.subrange(2, s.len() as int)
    } else {
        s
    }
}

/// The transaction as Turnkey expects it: no `0x` prefix, lower-case hex.
pub open spec fn normalized_transaction(s: Seq<char>) -> Seq<char> {
    ascii_lower(strip_hex_prefix(s))
}

/// The JSON text of the activity, fields in declaration order.
pub open spec fn activity_body_text(
    organization_id: Seq<char>,
    sign_with: Seq<char>,
    unsigned_transaction: Seq<char>,
    timestamp_ms: nat,
) -> Seq<char> {
    "{\"type\":"@ + json_quoted("ACTIVITY_TYPE_SIGN_TRANSACTION_V2"@) + ",\"timestampMs\":"@
        + json_quoted(decimal(timestamp_ms)) + ",\"organizationId\":"@ + json_quoted(organization_id)
        + ",\"parameters\":{\"signWith\":"@ + json_quoted(sign_with) + ",\"unsignedTransaction\":"@
        + json_quoted(normalized_transaction(unsigned_transaction)) + ",\"type\":"@ + json_quoted(
        "TRANSACTION_TYPE_ETHEREUM"@,
    ) + "}}"@
}

/// The derivation path of the Turnkey API key.
pub open spec fn api_key_derive_path() -> Seq<u8> {
    encode_utf8("tvc-template-turnkey-api-key-v1"@)
}

/// The scalar bytes of the Turnkey API key of a quorum key.
pub open spec fn api_key_secret(quorum_seed: Seq<u8>) -> Seq<u8> {
    qos_p256_derived_secret(quorum_seed, api_key_derive_path())
}

/// The JSON text of a stamp envelope.
pub open spec fn envelope_text(public_key: Seq<u8>, signature: Seq<u8>) -> Seq<char> {
    "{\"publicKey\":"@ + json_quoted(hex_lower(public_key)) + ",\"scheme\":"@ + json_quoted(
        "SIGNATURE_SCHEME_TK_API_P256"@,
    ) + ",\"signature\":"@ + json_quoted(hex_lower(signature)) + "}"@
}

/// The `X-Stamp` for `body`: the base64url (unpadded) envelope carrying the
/// API key's compressed public key and its DER signature over `body`; `None`
/// when the derived secret is no valid P-256 scalar.
pub open spec fn stamp_text(quorum_seed: Seq<u8>, body: Seq<u8>) -> Option<Seq<char>> {
    let secret = api_key_secret(quorum_seed);
    match (p256_der_signature(secret, body), p256_compressed_public_key(secret)) {
        (Some(signature), Some(public_key)) => Some(
            base64_encode(encode_utf8(envelope_text(public_key, signature)), true, false),
        ),
        _ => None,
    }
}

/// `s` without a leading `0x` or `0X`.
fn strip_transaction_prefix(s: &str) -> (res: &str)
    ensures
        res@ == strip_hex_prefix(s@),
{
    let n = s.unicode_len();
    if n >= 2 {
        let first = s.get_char(0);
        let second = s.get_char(1);
        if first == '0' && (second == 'x' || second == 'X') {
            return s.substring_char(2, n);
        }
    }
    s
}

/// Appends the JSON string literal of `s` to `out`.
fn push_json_string(out: &mut String, s: &str) -> (res: Result<(), serde_json::Error>)
    ensures
        res is Ok,
        final(out)@ == old(out)@ + json_quoted(s@),
{
    match json_string(s) {
        Ok(quoted) => {
            out.append(quoted.as_str());
            Ok(())
        },
        Err(error) => Err(error),
    }
}

/// The JSON text of a `SIGN_TRANSACTION_V2` activity.  The transaction loses
/// a `0x`/`0X` prefix and is lower-cased; the timestamp is a decimal string.
pub fn build_activity_body(
    organization_id: &str,
    sign_with: &str,
    unsigned_transaction: &str,
    timestamp_ms: u64,
) -> (res: Result<String, serde_json::Error>)
    ensures
        res is Ok,
        res is Ok ==> res->Ok_0@ == activity_body_text(
            organization_id@,
            sign_with@,
            unsigned_transaction@,
            timestamp_ms as nat,
        ),
{
    let mut timestamp = String::new();
    push_decimal(&mut timestamp, timestamp_ms);
    assert(timestamp@ =~= decimal(timestamp_ms as nat));
    let transaction = to_ascii_lowercase(strip_transaction_prefix(unsigned_transaction));

    let mut out = String::new();
    out.append("{\"type\":");
    push_json_string(&mut out, "ACTIVITY_TYPE_SIGN_TRANSACTION_V2")?;
    out.append(",\"timestampMs\":");
    push_json_string(&mut out, timestamp.as_str())?;
    out.append(",\"organizationId\":");
    push_json_string(&mut out, organization_id)?;
    out.append(",\"parameters\":{\"signWith\":");
    push_json_string(&mut out, sign_with)?;
    out.append(",\"unsignedTransaction\":");
    push_json_string(&mut out, transaction.as_str())?;
    out.append(",\"type\":");
    push_json_string(&mut out, "TRANSACTION_TYPE_ETHEREUM")?;
    out.append("}}");
    assert(out@ =~= activity_body_text(
        organization_id@,
        sign_with@,
        unsigned_transaction@,
        timestamp_ms as nat,
    ));
    Ok(out)
}

/// `prefix` followed by `detail`.
fn message(prefix: &str, detail: &str) -> (res: String)
    ensures
        res@ == prefix@ + detail@,
{
    let mut out = String::new();
    out.append(prefix);
    out.append(detail);
    assert(out@ =~= prefix@ + detail@);
    out
}

proof fn lemma_envelope_len(public_key: Seq<u8>, signature: Seq<u8>)
    requires
        public_key.len() == 33,
        signature.len() <= 73,
    ensures
        encode_utf8(envelope_text(public_key, signature)).len() <= 8000,
{
    reveal_strlit("{\"publicKey\":");
    reveal_strlit(",\"scheme\":");
    reveal_strlit("SIGNATURE_SCHEME_TK_API_P256");
    reveal_strlit(",\"signature\":");
    reveal_strlit("}");
    lemma_hex_lower_len(public_key);
    lemma_hex_lower_len(signature);
    lemma_json_escape_len(hex_lower(public_key));
    lemma_json_escape_len(hex_lower(signature));
    lemma_json_escape_len("SIGNATURE_SCHEME_TK_API_P256"@);
    lemma_encode_utf8_len(envelope_text(public_key, signature));
    assert(json_quoted(hex_lower(public_key)).len() <= 6 * 66 + 2);
    assert(json_quoted(hex_lower(signature)).len() <= 6 * 146 + 2);
    assert(json_quoted("SIGNATURE_SCHEME_TK_API_P256"@).len() <= 6 * 28 + 2);
    assert("{\"publicKey\":"@.len() == 13);
    assert(",\"scheme\":"@.len() == 10);
    assert(",\"signature\":"@.len() == 13);
    assert("}"@.len() == 1);
    assert(envelope_text(public_key, signature).len() <= 2000);
}

/// The Turnkey `X-Stamp` over `body`, signed with the API key derived from
/// the quorum key.  The error text names the step that failed.
pub fn stamp_activity_body(quorum_key: &[u8; 32], body: &str) -> (res: Result<String, String>)
    ensures
        res is Ok <==> stamp_text(quorum_key@, encode_utf8(body@)) is Some,
        res is Ok ==> res->Ok_0@ == stamp_text(quorum_key@, encode_utf8(body@))->Some_0,
        res is Err ==> "failed to construct Turnkey API key: "@.is_prefix_of(res->Err_0@),
{
    let secret = match qos_p256_derive_secret(quorum_key, "tvc-template-turnkey-api-key-v1".as_bytes()) {
        Ok(secret) => secret,
        Err(error) => return Err(message("failed to derive Turnkey API key: ", error.as_str())),
    };
    let signature = match p256_sign_der(secret.as_slice(), body.as_bytes()) {
        Ok(signature) => signature,
        Err(error) => {
            let m = message("failed to construct Turnkey API key: ", error.as_str());
            assert("failed to construct Turnkey API key: "@.is_prefix_of(m@));
            return Err(m);
        },
    };
    let public_key = match p256_compressed_public(secret.as_slice()) {
        Ok(public_key) => public_key,
        Err(error) => {
            let m = message("failed to construct Turnkey API key: ", error.as_str());
            assert("failed to construct Turnkey API key: "@.is_prefix_of(m@));
            return Err(m);
        },
    };
    let public_key_hex = hex_encode(public_key.as_slice());
    let signature_hex = hex_encode(signature.as_slice());

    let mut envelope = String::new();
    envelope.append("{\"publicKey\":");
    if let Err(error) = push_json_string(&mut envelope, public_key_hex.as_str()) {
        return Err(message("failed to serialize Turnkey stamp: ", json_error_text(&error).as_str()));
    }
    envelope.append(",\"scheme\":");
    if let Err(error) = push_json_string(&mut envelope, "SIGNATURE_SCHEME_TK_API_P256") {
        return Err(message("failed to serialize Turnkey stamp: ", json_error_text(&error).as_str()));
    }
    envelope.append(",\"signature\":");
    if let Err(error) = push_json_string(&mut envelope, signature_hex.as_str()) {
        return Err(message("failed to serialize Turnkey stamp: ", json_error_text(&error).as_str()));
    }
    envelope.append("}");
    assert(envelope@ =~= envelope_text(public_key@, signature@));
    proof {
        lemma_envelope_len(public_key@, signature@);
    }
    let bytes = envelope.as_str().as_bytes();
    Ok(base64_url_no_pad(bytes))
}

/// A request to sign an Ethereum transaction through Turnkey.
pub struct SignTurnkeyTransactionRequest {
    pub organization_id: String,
    pub sign_with: String,
    pub unsigned_transaction: String,
    pub timestamp_ms: u64,
}

/// The activity body to forward verbatim and its `X-Stamp`.
pub struct SignTurnkeyTransactionResponse {
    pub activity_body: String,
    pub x_stamp: String,
}

/// Builds the activity for `request` and stamps it with the API key derived
/// from the quorum key.  The stamp signs exactly the returned activity body.
pub fn sign_turnkey_transaction(
    quorum_key: &[u8; 32],
    request: &SignTurnkeyTransactionRequest,
) -> (res: Result<SignTurnkeyTransactionResponse, AppError>)
    ensures
        ({
            let body = activity_body_text(
                request.organization_id@,
                request.sign_with@,
                request.unsigned_transaction@,
                request.timestamp_ms as nat,
            );
            match stamp_text(quorum_key@, encode_utf8(body)) {
                Some(stamp) => res is Ok && res->Ok_0.activity_body@ == body
                    && res->Ok_0.x_stamp@ == stamp,
                None => res is Err && res->Err_0.status_code() == 500
                    && "failed to construct Turnkey API key: "@.is_prefix_of(res->Err_0.message_text()),
            }
        }),
{
    let activity_body = match build_activity_body(
        request.organization_id.as_str(),
        request.sign_with.as_str(),
        request.unsigned_transaction.as_str(),
        request.timestamp_ms,
    ) {
        Ok(body) => body,
        Err(error) => {
            return Err(
                AppError::internal(
                    message(
                        "failed to serialize Turnkey activity: ",
                        json_error_text(&error).as_str(),
                    ),
                ),
            );
        },
    };
    let x_stamp = match stamp_activity_body(quorum_key, activity_body.as_str()) {
        Ok(stamp) => stamp,
        Err(error) => return Err(AppError::internal(error)),
    };
    Ok(SignTurnkeyTransactionResponse { activity_body, x_stamp })
}

} // verus!

verus! {

/// The Turnkey API key is stable for a given quorum key: every stamp made
/// with one quorum key carries the same public key, whatever body it signs.
pub proof fn law_stamp_key_stable(quorum_seed: Seq<u8>, body1: Seq<u8>, body2: Seq<u8>)
    requires
        stamp_text(quorum_seed, body1) is Some,
        stamp_text(quorum_seed, body2) is Some,
    ensures
        ({
            let secret = api_key_secret(quorum_seed);
            let public_key = p256_compressed_public_key(secret)->Some_0;
            &&& stamp_text(quorum_seed, body1) == Some(
                base64_encode(
                    encode_utf8(
                        envelope_text(public_key, p256_der_signature(secret, body1)->Some_0),
                    ),
                    true,
                    false,
                ),
            )
            &&& stamp_text(quorum_seed, body2) == Some(
                base64_encode(
                    encode_utf8(
                        envelope_text(public_key, p256_der_signature(secret, body2)->Some_0),
                    ),
                    true,
                    false,
                ),
            )
        }),
{
}

/// The transaction Turnkey receives holds no upper-case ASCII letter and no
/// `0x` prefix of the original.
pub proof fn law_normalized_transaction_is_lowercase(s: Seq<char>)
    ensures
        forall|i: int|
            0 <= i < normalized_transaction(s).len() ==> !('A' <= #[trigger] normalized_transaction(
                s,
            )[i] && normalized_transaction(s)[i] <= 'Z'),
        normalized_transaction(s).len() == strip_hex_prefix(s).len(),
{
    let t = strip_hex_prefix(s);
    assert forall|i: int| 0 <= i < normalized_transaction(s).len() implies !('A'
        <= #[trigger] normalized_transaction(s)[i] && normalized_transaction(s)[i] <= 'Z') by {
        let c = t[i];
        assert(normalized_transaction(s)[i] == crate::codec::ascii_lower_char(c));
    }
}


/// The activity text before the signer: type, timestamp, organization and
/// the opening of the parameters.  It does not depend on the signer.
pub open spec fn activity_head(organization_id: Seq<char>, timestamp_ms: nat) -> Seq<char> {
    "{\"type\":"@ + json_quoted("ACTIVITY_TYPE_SIGN_TRANSACTION_V2"@) + ",\"timestampMs\":"@
        + json_quoted(decimal(timestamp_ms)) + ",\"organizationId\":"@ + json_quoted(organization_id)
        + ",\"parameters\":{\"signWith\":"@
}

/// The activity text after the signer: the transaction and its type.  It
/// does not depend on the signer.
pub open spec fn activity_tail(unsigned_transaction: Seq<char>) -> Seq<char> {
    ",\"unsignedTransaction\":"@ + json_quoted(normalized_transaction(unsigned_transaction))
        + ",\"type\":"@ + json_quoted("TRANSACTION_TYPE_ETHEREUM"@) + "}}"@
}

/// The signer is carried verbatim: the activity is the same text around the
/// signer's slot whatever the signer, and the slot holds the JSON string of
/// `sign_with` exactly as requested (no case or prefix change).
pub proof fn law_activity_body_carries_signer_verbatim(
    organization_id: Seq<char>,
    sign_with: Seq<char>,
    unsigned_transaction: Seq<char>,
    timestamp_ms: nat,
)
    ensures
        activity_body_text(organization_id, sign_with, unsigned_transaction, timestamp_ms)
            == activity_head(organization_id, timestamp_ms) + json_quoted(sign_with)
            + activity_tail(unsigned_transaction),
{
    assert(activity_body_text(organization_id, sign_with, unsigned_transaction, timestamp_ms)
        =~= activity_head(organization_id, timestamp_ms) + json_quoted(sign_with)
        + activity_tail(unsigned_transaction));
}

/// Different signers give different activities: the body names the signer
/// the caller asked for, so no two signers (say two spellings of an address
/// that differ only in case) share an activity or a stamp over it.
pub proof fn law_activity_body_distinguishes_signers(
    organization_id: Seq<char>,
    sign_with1: Seq<char>,
    sign_with2: Seq<char>,
    unsigned_transaction: Seq<char>,
    timestamp_ms: nat,
)
    requires
        activity_body_text(organization_id, sign_with1, unsigned_transaction, timestamp_ms)
            == activity_body_text(organization_id, sign_with2, unsigned_transaction, timestamp_ms),
    ensures
        sign_with1 == sign_with2,
{
    law_activity_body_carries_signer_verbatim(organization_id, sign_with1, unsigned_transaction, timestamp_ms);
    law_activity_body_carries_signer_verbatim(organization_id, sign_with2, unsigned_transaction, timestamp_ms);
    let h = activity_head(organization_id, timestamp_ms);
    let t = activity_tail(unsigned_transaction);
    let q1 = json_quoted(sign_with1);
    let q2 = json_quoted(sign_with2);
    let b1 = h + q1 + t;
    let b2 = h + q2 + t;
    assert(b1 == b2);
    assert(b1.len() == h.len() + q1.len() + t.len());
    assert(b2.len() == h.len() + q2.len() + t.len());
    assert(q1.len() == q2.len());
    assert(q1 =~= b1.subrange(h.len() as int, (h.len() + q1.len()) as int));
    assert(q2 =~= b2.subrange(h.len() as int, (h.len() + q2.len()) as int));
    lemma_json_quoted_injective(sign_with1, sign_with2);
}

} // verus!
