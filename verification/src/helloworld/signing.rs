//! Signing of every response body with the enclave's ephemeral key.
//!
//! The body is buffered, its exact bytes are signed with the ephemeral
//! `qos_p256` key, and two hex-encoded headers are attached without otherwise
//! altering the response: the ephemeral public key (`P256Public::to_bytes`)
//! and the signature over the body bytes.

use vstd::prelude::*;
use crate::codec::{header_value_accepts, header_value_ok, hex_encode, hex_lower};
use crate::http::{
    header_insert, headers_view, insert_header, lemma_header_insert_contains, HttpResponse,
    ResponseModel,
};
use crate::keys::{qos_p256_public_key, qos_p256_public_key_bytes, qos_p256_sign, qos_p256_signature};

verus! {

/// Header carrying the hex-encoded ephemeral public key used to sign the
/// response body.
pub const PUBLIC_KEY_HEADER: &'static str = "x-tvc-ephemeral-public-key";

/// Header carrying the hex-encoded qos_p256 signature over the response body
/// bytes.
pub const SIGNATURE_HEADER: &'static str = "x-tvc-response-signature";

/// Tower layer configuration that signs every response body with the
/// ephemeral key stored in the given file.
pub struct ResponseSigningLayer {
    ephemeral_key_file: String,
}

impl ResponseSigningLayer {
    /// The file the ephemeral key is loaded from.
    pub closed spec fn key_file(&self) -> Seq<char> {
        self.ephemeral_key_file@
    }

    /// Create a new layer that signs responses using the key in
    /// `ephemeral_key_file`.
    pub fn new(ephemeral_key_file: String) -> (res: Self)
        ensures
            res.key_file() == ephemeral_key_file@,
    {
        ResponseSigningLayer { ephemeral_key_file }
    }

    /// The file the ephemeral key is loaded from, for each response.
    pub fn ephemeral_key_file(&self) -> (res: &str)
        ensures
            res@ == self.key_file(),
    {
        self.ephemeral_key_file.as_str()
    }
}

/// The hex public key and hex signature of `bytes` under the key loaded as
/// `key` (its master seed, or the load error's text).
pub open spec fn signed_hex(key: Result<Seq<u8>, Seq<char>>, bytes: Seq<u8>) -> Option<(Seq<char>, Seq<char>)> {
    match key {
        Ok(seed) => match (qos_p256_signature(seed, bytes), qos_p256_public_key(seed)) {
            (Some(signature), Some(public_key)) => Some((hex_lower(public_key), hex_lower(signature))),
            _ => None,
        },
        Err(_) => None,
    }
}

/// The view of a loaded key.
pub open spec fn key_view(key: &Result<[u8; 32], String>) -> Result<Seq<u8>, Seq<char>> {
    match key {
        Ok(seed) => Ok(seed@),
        Err(e) => Err(e@),
    }
}

/// `prefix` followed by `detail`.
fn joined(prefix: &str, detail: &str) -> (res: String)
    ensures
        res@ == prefix@ + detail@,
{
    let mut out = String::new();
    out.append(prefix);
    out.append(detail);
    assert(out@ =~= prefix@ + detail@);
    out
}

/// Sign the given bytes, returning the hex-encoded public key and signature.
pub fn sign_bytes(bytes: &[u8], ephemeral_key: &Result<[u8; 32], String>) -> (res: Result<(String, String), String>)
    ensures
        res is Ok <==> signed_hex(key_view(ephemeral_key), bytes@) is Some,
        res is Ok ==> (res->Ok_0.0@, res->Ok_0.1@) == signed_hex(key_view(ephemeral_key), bytes@)->Some_0,
        ephemeral_key matches Ok(seed) && qos_p256_signature(seed@, bytes@) is Some ==> res is Ok,
        ephemeral_key matches Err(e) ==> res is Err && res->Err_0@ == "failed to load ephemeral key: "@ + e@,
        ephemeral_key matches Ok(seed) && qos_p256_signature(seed@, bytes@) is None ==> res is Err
            && "failed to sign response body: "@.is_prefix_of(res->Err_0@),
{
    let key = match ephemeral_key {
        Ok(key) => key,
        Err(e) => return Err(joined("failed to load ephemeral key: ", e.as_str())),
    };
    let signature = match qos_p256_sign(key, bytes) {
        Ok(signature) => signature,
        Err(e) => {
            let m = joined("failed to sign response body: ", e.as_str());
            assert("failed to sign response body: "@.is_prefix_of(m@));
            return Err(m);
        },
    };
    let public_key = match qos_p256_public_key_bytes(key) {
        Ok(public_key) => public_key,
        Err(e) => return Err(joined("failed to load ephemeral key: ", e.as_str())),
    };
    let public_key_hex = hex_encode(public_key.as_slice());
    let signature_hex = hex_encode(signature.as_slice());
    Ok((public_key_hex, signature_hex))
}

/// Lower hex is accepted in a header value.
proof fn lemma_hex_header_ok(data: Seq<u8>)
    ensures
        header_value_ok(hex_lower(data)),
    decreases data.len(),
{
    if data.len() > 0 {
        let rest = data.subrange(1, data.len() as int);
        lemma_hex_header_ok(rest);
        let h = hex_lower(data);
        assert forall|i: int| 0 <= i < h.len() implies crate::codec::header_char_ok(#[trigger] h[i]) by {
            if i >= 2 {
                assert(h[i] == hex_lower(rest)[i - 2]);
            }
        }
    }
}

/// The response after signing: the body stays as it was; when signing
/// succeeded, the public-key and signature headers are set.
pub open spec fn body_signed_model(
    status: u16,
    headers: Seq<(Seq<char>, Seq<char>)>,
    body: Seq<u8>,
    key: Result<Seq<u8>, Seq<char>>,
) -> ResponseModel {
    ResponseModel {
        status,
        headers: match signed_hex(key, body) {
            Some((public_key, signature)) => header_insert(
                header_insert(headers, "x-tvc-ephemeral-public-key"@, public_key),
                "x-tvc-response-signature"@,
                signature,
            ),
            None => headers,
        },
        body,
    }
}

/// Buffer the response body, sign the exact bytes with the ephemeral key, and
/// reattach the unchanged body with the signature headers.  When the body
/// could not be read (`None`) the response goes out with an empty body and
/// no signature; when the key cannot be loaded or used, without signature
/// headers.  Status and other headers are always preserved.
pub fn sign_response(
    status: u16,
    headers: Vec<(String, String)>,
    body: Option<Vec<u8>>,
    ephemeral_key: &Result<[u8; 32], String>,
) -> (res: HttpResponse)
    ensures
        body is None ==> res@ == (ResponseModel {
            status,
            headers: headers_view(headers@),
            body: Seq::empty(),
        }),
        body is Some ==> res@ == body_signed_model(
            status,
            headers_view(headers@),
            body->Some_0@,
            key_view(ephemeral_key),
        ),
{
    let bytes = match body {
        Some(bytes) => bytes,
        None => return HttpResponse { status, headers, body: Vec::new() },
    };
    let mut headers = headers;
    match sign_bytes(bytes.as_slice(), ephemeral_key) {
        Ok((public_key_hex, signature_hex)) => {
            proof {
                let seed = key_view(ephemeral_key)->Ok_0;
                lemma_hex_header_ok(qos_p256_public_key(seed)->Some_0);
                lemma_hex_header_ok(qos_p256_signature(seed, bytes@)->Some_0);
            }
            if header_value_accepts(public_key_hex.as_str()) {
                insert_header(&mut headers, PUBLIC_KEY_HEADER, public_key_hex);
            }
            if header_value_accepts(signature_hex.as_str()) {
                insert_header(&mut headers, SIGNATURE_HEADER, signature_hex);
            }
        },
        Err(_) => {},
    }
    HttpResponse { status, headers, body: bytes }
}

/// Body signing preserves the endpoint's behavior: status and body are
/// unchanged, and every header other than the two signature headers is kept
/// exactly; when signing succeeds, both signature headers are present.
pub proof fn law_body_signing_preserves_response(
    status: u16,
    headers: Seq<(Seq<char>, Seq<char>)>,
    body: Seq<u8>,
    key: Result<Seq<u8>, Seq<char>>,
    entry: (Seq<char>, Seq<char>),
)
    ensures
        ({
            let r = body_signed_model(status, headers, body, key);
            &&& r.status == status
            &&& r.body == body
            &&& entry.0 != "x-tvc-ephemeral-public-key"@ && entry.0 != "x-tvc-response-signature"@
                ==> (r.headers.contains(entry) <==> headers.contains(entry))
            &&& signed_hex(key, body) matches Some((public_key, signature)) ==> {
                &&& r.headers.contains(("x-tvc-ephemeral-public-key"@, public_key))
                &&& r.headers.contains(("x-tvc-response-signature"@, signature))
            }
        }),
{
    reveal_strlit("x-tvc-ephemeral-public-key");
    reveal_strlit("x-tvc-response-signature");
    assert("x-tvc-ephemeral-public-key"@.len() != "x-tvc-response-signature"@.len());
    if let Some((public_key, signature)) = signed_hex(key, body) {
        let h1 = header_insert(headers, "x-tvc-ephemeral-public-key"@, public_key);
        lemma_header_insert_contains(headers, "x-tvc-ephemeral-public-key"@, public_key, entry);
        lemma_header_insert_contains(h1, "x-tvc-response-signature"@, signature, entry);
        lemma_header_insert_contains(
            headers,
            "x-tvc-ephemeral-public-key"@,
            public_key,
            ("x-tvc-ephemeral-public-key"@, public_key),
        );
        lemma_header_insert_contains(
            h1,
            "x-tvc-response-signature"@,
            signature,
            ("x-tvc-ephemeral-public-key"@, public_key),
        );
        lemma_header_insert_contains(
            h1,
            "x-tvc-response-signature"@,
            signature,
            ("x-tvc-response-signature"@, signature),
        );
    }
}

} // verus!
