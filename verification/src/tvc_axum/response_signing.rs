//! HTTP message signatures over responses, the core of the TVC response
//! signing layer: every response gets a `content-digest` header and, for each
//! configured key (ephemeral first, then quorum), an entry in the
//! `signature-input` and `signature` headers.  Each signature covers the
//! request method and path, the response status, the content digest and the
//! signature parameters.

use vstd::prelude::*;
use vstd::string::StrSliceExecFns;
use vstd::utf8::encode_utf8;
use crate::codec::{
    base64_encode, base64_standard, header_char_ok, header_value_accepts, header_value_ok,
    sextet_char, sha256, sha256_digest,
};
use crate::http::{
    header_insert, headers_view, insert_header, lemma_header_insert_contains, HttpResponse,
    ResponseModel,
};
use crate::keys::{qos_p256_sign, qos_p256_signature};
use crate::text::{decimal, digit_char, push_decimal};
use crate::clock::unix_timestamp;

verus! {

// ---------------------------------------------------------------------------
// The signed texts
// ---------------------------------------------------------------------------

/// The covered components, in the order the signature base lists them.
pub open spec fn signature_components() -> Seq<char> {
    "(\"@method\" \"@path\" \"@status\" \"content-digest\")"@
}

/// The signature algorithm named in the signature parameters.
pub open spec fn signature_alg() -> Seq<char> {
    "ecdsa-p256-sha256"@
}

/// `sha-256=:<base64 of the SHA-256 of body>:`
pub open spec fn content_digest_text(body: Seq<u8>) -> Seq<char> {
    "sha-256=:"@ + base64_encode(sha256_digest(body), false, true) + ":"@
}

/// The signature parameters for the key `label` at time `created`.
pub open spec fn signature_input_text(label: Seq<char>, created: nat) -> Seq<char> {
    signature_components() + ";created="@ + decimal(created) + ";keyid=\""@ + label
        + "\";alg=\""@ + signature_alg() + "\""@
}

/// The text that a key signs: one line per covered component, then the
/// signature parameters.
pub open spec fn signature_base_text(
    method: Seq<char>,
    path: Seq<char>,
    status: nat,
    digest: Seq<char>,
    label: Seq<char>,
    created: nat,
) -> Seq<char> {
    "\"@method\": "@ + method + "\n\"@path\": "@ + path + "\n\"@status\": "@ + decimal(status)
        + "\n\"content-digest\": "@ + digest + "\n\"@signature-params\": "@
        + signature_input_text(label, created)
}

/// `:<base64 of the signature>:`
pub open spec fn signature_value_text(signature: Seq<u8>) -> Seq<char> {
    ":"@ + base64_encode(signature, false, true) + ":"@
}

/// The bytes that the key `label` signs for a response with this body.
pub open spec fn signed_bytes(
    method: Seq<char>,
    path: Seq<char>,
    status: nat,
    body: Seq<u8>,
    label: Seq<char>,
    created: nat,
) -> Seq<u8> {
    encode_utf8(signature_base_text(method, path, status, content_digest_text(body), label, created))
}

/// `label=value`
pub open spec fn labeled(label: Seq<char>, value: Seq<char>) -> Seq<char> {
    label + "="@ + value
}

/// The entries that are present, joined by `, `.
pub open spec fn join_entries(first: Option<Seq<char>>, second: Option<Seq<char>>) -> Option<
    Seq<char>,
> {
    match (first, second) {
        (Some(a), Some(b)) => Some(a + ", "@ + b),
        (Some(a), None) => Some(a),
        (None, Some(b)) => Some(b),
        (None, None) => None,
    }
}

/// The `signature-input` entry of a key, present when the key is.
pub open spec fn input_entry(present: bool, label: Seq<char>, created: nat) -> Option<Seq<char>> {
    if present {
        Some(labeled(label, signature_input_text(label, created)))
    } else {
        None
    }
}

/// The `signature` entry of a key, present when the key signed.
pub open spec fn signature_entry(signature: Option<Seq<u8>>, label: Seq<char>) -> Option<Seq<char>> {
    match signature {
        Some(s) => Some(labeled(label, signature_value_text(s))),
        None => None,
    }
}

/// The JSON error response with status 500 that the layer answers with when
/// it cannot sign.
pub open spec fn error_response_model(message: Seq<char>) -> ResponseModel {
    ResponseModel {
        status: 500,
        headers: seq![("content-type"@, "application/json"@)],
        body: encode_utf8("{\"error\":\""@ + message + "\"}"@),
    }
}

/// The signed response: the digest header replaces any earlier one, and the
/// signature headers are set when at least one key signed.
pub open spec fn signed_response_model(
    status: u16,
    headers: Seq<(Seq<char>, Seq<char>)>,
    body: Seq<u8>,
    created: nat,
    ephemeral_signature: Option<Seq<u8>>,
    quorum_signature: Option<Seq<u8>>,
) -> ResponseModel {
    let with_digest = header_insert(headers, "content-digest"@, content_digest_text(body));
    let inputs = join_entries(
        input_entry(ephemeral_signature is Some, "ephemeral"@, created),
        input_entry(quorum_signature is Some, "quorum"@, created),
    );
    let signatures = join_entries(
        signature_entry(ephemeral_signature, "ephemeral"@),
        signature_entry(quorum_signature, "quorum"@),
    );
    ResponseModel {
        status,
        headers: match (inputs, signatures) {
            (Some(i), Some(s)) => header_insert(
                header_insert(with_digest, "signature-input"@, i),
                "signature"@,
                s,
            ),
            _ => with_digest,
        },
        body,
    }
}

/// What the signing layer answers for a response, given its keys and the
/// time `created` (`None` when the clock could not be read).
pub open spec fn signing_outcome(
    ephemeral_key: Option<Seq<u8>>,
    quorum_key: Option<Seq<u8>>,
    method: Seq<char>,
    path: Seq<char>,
    status: u16,
    headers: Seq<(Seq<char>, Seq<char>)>,
    body: Seq<u8>,
    created: Option<u64>,
) -> ResponseModel {
    match created {
        None => error_response_model("failed to read system time"@),
        Some(c) => {
            let eph = match ephemeral_key {
                Some(k) => qos_p256_signature(k, signed_bytes(method, path, status as nat, body, "ephemeral"@, c as nat)),
                None => None,
            };
            let quo = match quorum_key {
                Some(k) => qos_p256_signature(k, signed_bytes(method, path, status as nat, body, "quorum"@, c as nat)),
                None => None,
            };
            if ephemeral_key is Some && eph is None {
                error_response_model("failed to sign response with ephemeral key"@)
            } else if quorum_key is Some && quo is None {
                error_response_model("failed to sign response with quorum key"@)
            } else {
                signed_response_model(status, headers, body, c as nat, eph, quo)
            }
        },
    }
}

// ---------------------------------------------------------------------------
// Header-value validity of everything the layer writes
// ---------------------------------------------------------------------------

proof fn lemma_header_ok_concat(a: Seq<char>, b: Seq<char>)
    requires
        header_value_ok(a),
        header_value_ok(b),
    ensures
        header_value_ok(a + b),
{
    assert forall|i: int| 0 <= i < (a + b).len() implies header_char_ok(#[trigger] (a + b)[i]) by {
        if i < a.len() {
            assert((a + b)[i] == a[i]);
        } else {
            assert((a + b)[i] == b[i - a.len()]);
        }
    }
}

proof fn lemma_base64_header_ok(data: Seq<u8>, url_safe: bool, pad: bool)
    ensures
        header_value_ok(base64_encode(data, url_safe, pad)),
    decreases data.len(),
{
    let e = base64_encode(data, url_safe, pad);
    assert forall|v: nat, u: bool| header_char_ok(#[trigger] sextet_char(v, u)) by {}
    if data.len() >= 3 {
        lemma_base64_header_ok(data.subrange(3, data.len() as int), url_safe, pad);
    }
    assert forall|i: int| 0 <= i < e.len() implies header_char_ok(#[trigger] e[i]) by {
        if data.len() >= 3 {
            let rest = base64_encode(data.subrange(3, data.len() as int), url_safe, pad);
            if i >= 4 {
                assert(e[i] == rest[i - 4]);
            }
        }
    }
}

proof fn lemma_decimal_header_ok(n: nat)
    ensures
        header_value_ok(decimal(n)),
    decreases n,
{
    if n >= 10 {
        lemma_decimal_header_ok(n / 10);
        assert(header_char_ok(digit_char(n % 10)));
        lemma_header_ok_concat(decimal(n / 10), seq![digit_char(n % 10)]);
        assert(decimal(n) =~= decimal(n / 10) + seq![digit_char(n % 10)]);
    }
}

proof fn lemma_literals_header_ok()
    ensures
        header_value_ok("sha-256=:"@),
        header_value_ok(":"@),
        header_value_ok(signature_components()),
        header_value_ok(";created="@),
        header_value_ok(";keyid=\""@),
        header_value_ok("\";alg=\""@),
        header_value_ok(signature_alg()),
        header_value_ok("\""@),
        header_value_ok("="@),
        header_value_ok(", "@),
        header_value_ok("ephemeral"@),
        header_value_ok("quorum"@),
{
    reveal_strlit("sha-256=:");
    reveal_strlit(":");
    reveal_strlit("(\"@method\" \"@path\" \"@status\" \"content-digest\")");
    reveal_strlit(";created=");
    reveal_strlit(";keyid=\"");
    reveal_strlit("\";alg=\"");
    reveal_strlit("ecdsa-p256-sha256");
    reveal_strlit("\"");
    reveal_strlit("=");
    reveal_strlit(", ");
    reveal_strlit("ephemeral");
    reveal_strlit("quorum");
}

proof fn lemma_digest_header_ok(body: Seq<u8>)
    ensures
        header_value_ok(content_digest_text(body)),
{
    lemma_literals_header_ok();
    let b = base64_encode(sha256_digest(body), false, true);
    lemma_base64_header_ok(sha256_digest(body), false, true);
    lemma_header_ok_concat("sha-256=:"@, b);
    lemma_header_ok_concat("sha-256=:"@ + b, ":"@);
}

proof fn lemma_input_header_ok(label: Seq<char>, created: nat)
    requires
        header_value_ok(label),
    ensures
        header_value_ok(labeled(label, signature_input_text(label, created))),
{
    lemma_literals_header_ok();
    lemma_decimal_header_ok(created);
    let s1 = signature_components() + ";created="@;
    lemma_header_ok_concat(signature_components(), ";created="@);
    lemma_header_ok_concat(s1, decimal(created));
    let s2 = s1 + decimal(created);
    lemma_header_ok_concat(s2, ";keyid=\""@);
    let s3 = s2 + ";keyid=\""@;
    lemma_header_ok_concat(s3, label);
    let s4 = s3 + label;
    lemma_header_ok_concat(s4, "\";alg=\""@);
    let s5 = s4 + "\";alg=\""@;
    lemma_header_ok_concat(s5, signature_alg());
    let s6 = s5 + signature_alg();
    lemma_header_ok_concat(s6, "\""@);
    lemma_header_ok_concat(label, "="@);
    lemma_header_ok_concat(label + "="@, signature_input_text(label, created));
}

proof fn lemma_signature_entry_ok(label: Seq<char>, signature: Seq<u8>)
    requires
        header_value_ok(label),
    ensures
        header_value_ok(labeled(label, signature_value_text(signature))),
{
    lemma_literals_header_ok();
    let b = base64_encode(signature, false, true);
    lemma_base64_header_ok(signature, false, true);
    lemma_header_ok_concat(":"@, b);
    lemma_header_ok_concat(":"@ + b, ":"@);
    lemma_header_ok_concat(label, "="@);
    lemma_header_ok_concat(label + "="@, signature_value_text(signature));
}

proof fn lemma_join_ok(a: Option<Seq<char>>, b: Option<Seq<char>>)
    requires
        a is Some ==> header_value_ok(a->Some_0),
        b is Some ==> header_value_ok(b->Some_0),
    ensures
        join_entries(a, b) is Some ==> header_value_ok(join_entries(a, b)->Some_0),
{
    lemma_literals_header_ok();
    if a is Some && b is Some {
        lemma_header_ok_concat(a->Some_0, ", "@);
        lemma_header_ok_concat(a->Some_0 + ", "@, b->Some_0);
    }
}

// ---------------------------------------------------------------------------
// Executable pieces
// ---------------------------------------------------------------------------

/// The `content-digest` header value for a response body.
pub fn content_digest(body: &[u8]) -> (res: String)
    ensures
        res@ == content_digest_text(body@),
{
    let digest = sha256(body);
    let encoded = base64_standard(digest.as_slice());
    let mut out = String::new();
    out.append("sha-256=:");
    out.append(encoded.as_str());
    out.append(":");
    assert(out@ =~= content_digest_text(body@));
    out
}

/// The signature parameters for the key `label` at unix time `created`.
pub fn signature_input(label: &str, created: u64) -> (res: String)
    ensures
        res@ == signature_input_text(label@, created as nat),
{
    let mut out = String::new();
    out.append("(\"@method\" \"@path\" \"@status\" \"content-digest\")");
    out.append(";created=");
    push_decimal(&mut out, created);
    out.append(";keyid=\"");
    out.append(label);
    out.append("\";alg=\"");
    out.append("ecdsa-p256-sha256");
    out.append("\"");
    assert(out@ =~= signature_input_text(label@, created as nat));
    out
}

/// The bytes that the key `label` signs.
pub fn signature_base(
    method: &str,
    path: &str,
    status: u16,
    digest: &str,
    label: &str,
    created: u64,
) -> (res: Vec<u8>)
    ensures
        res@ == encode_utf8(
            signature_base_text(method@, path@, status as nat, digest@, label@, created as nat),
        ),
{
    let mut out = String::new();
    out.append("\"@method\": ");
    out.append(method);
    out.append("\n\"@path\": ");
    out.append(path);
    out.append("\n\"@status\": ");
    push_decimal(&mut out, status as u64);
    out.append("\n\"content-digest\": ");
    out.append(digest);
    out.append("\n\"@signature-params\": ");
    let params = signature_input(label, created);
    out.append(params.as_str());
    assert(out@ =~= signature_base_text(
        method@,
        path@,
        status as nat,
        digest@,
        label@,
        created as nat,
    ));
    out.as_str().as_bytes_vec()
}

/// The `signature` entry value for `base` signed with `key`; `None` when the
/// key cannot sign.
pub fn signature_value(key: &[u8; 32], signature_base: &[u8]) -> (res: Option<String>)
    ensures
        res is Some <==> qos_p256_signature(key@, signature_base@) is Some,
        res is Some ==> res->Some_0@ == signature_value_text(
            qos_p256_signature(key@, signature_base@)->Some_0,
        ),
{
    let signature = match qos_p256_sign(key, signature_base) {
        Ok(signature) => signature,
        Err(_) => return None,
    };
    let encoded = base64_standard(signature.as_slice());
    let mut out = String::new();
    out.append(":");
    out.append(encoded.as_str());
    out.append(":");
    assert(out@ =~= signature_value_text(signature@));
    Some(out)
}

/// The JSON error response with status 500 and `message` as its error.
pub fn internal_error_response(message: &str) -> (res: HttpResponse)
    ensures
        res@ == error_response_model(message@),
{
    let mut text = String::new();
    text.append("{\"error\":\"");
    text.append(message);
    text.append("\"}");
    assert(text@ =~= "{\"error\":\""@ + message@ + "\"}"@);
    let mut headers: Vec<(String, String)> = Vec::new();
    headers.push(("content-type".to_string(), "application/json".to_string()));
    let res = HttpResponse { status: 500, headers, body: text.as_str().as_bytes_vec() };
    assert(res@.headers =~= seq![("content-type"@, "application/json"@)]);
    res
}

} // verus!

verus! {

// ---------------------------------------------------------------------------
// The signing layer
// ---------------------------------------------------------------------------

/// A key slot as its seed bytes.
pub open spec fn key_view(key: Option<[u8; 32]>) -> Option<Seq<u8>> {
    match key {
        Some(k) => Some(k@),
        None => None,
    }
}

/// Joins the entry text `entry` after `acc` with `, `.
fn join_entry(acc: Option<String>, entry: Option<String>) -> (res: Option<String>)
    ensures
        opt_text(res) == join_entries(opt_text(acc), opt_text(entry)),
{
    match (acc, entry) {
        (Some(a), Some(b)) => {
            let mut out = a;
            out.append(", ");
            out.append(b.as_str());
            Some(out)
        },
        (Some(a), None) => Some(a),
        (None, Some(b)) => Some(b),
        (None, None) => None,
    }
}

/// The text of an optional string.
pub open spec fn opt_text(s: Option<String>) -> Option<Seq<char>> {
    match s {
        Some(t) => Some(t@),
        None => None,
    }
}

/// `label=` followed by `value`.
fn labeled_entry(label: &str, value: &str) -> (res: String)
    ensures
        res@ == labeled(label@, value@),
{
    let mut out = String::new();
    out.append(label);
    out.append("=");
    out.append(value);
    assert(out@ =~= labeled(label@, value@));
    out
}

/// Tower layer configuration that signs response bodies with the configured
/// TVC P-256 keys (held as their master seeds).
pub struct ResponseSigningLayer {
    ephemeral_key: Option<[u8; 32]>,
    quorum_key: Option<[u8; 32]>,
}

/// Builder for [`ResponseSigningLayer`].
pub struct ResponseSigningLayerBuilder {
    ephemeral_key: Option<[u8; 32]>,
    quorum_key: Option<[u8; 32]>,
}

impl ResponseSigningLayerBuilder {
    /// The ephemeral key configured so far.
    pub closed spec fn ephemeral(&self) -> Option<Seq<u8>> {
        key_view(self.ephemeral_key)
    }

    /// The quorum key configured so far.
    pub closed spec fn quorum(&self) -> Option<Seq<u8>> {
        key_view(self.quorum_key)
    }

    /// Sign responses with the TVC ephemeral key.
    pub fn ephemeral_key(self, key: [u8; 32]) -> (res: Self)
        ensures
            res.ephemeral() == Some(key@),
            res.quorum() == self.quorum(),
    {
        ResponseSigningLayerBuilder { ephemeral_key: Some(key), quorum_key: self.quorum_key }
    }

    /// Sign responses with the TVC quorum key.
    pub fn quorum_key(self, key: [u8; 32]) -> (res: Self)
        ensures
            res.quorum() == Some(key@),
            res.ephemeral() == self.ephemeral(),
    {
        ResponseSigningLayerBuilder { ephemeral_key: self.ephemeral_key, quorum_key: Some(key) }
    }

    /// Build the response signing layer.
    pub fn build(self) -> (res: ResponseSigningLayer)
        ensures
            res.ephemeral() == self.ephemeral(),
            res.quorum() == self.quorum(),
    {
        ResponseSigningLayer { ephemeral_key: self.ephemeral_key, quorum_key: self.quorum_key }
    }
}

impl ResponseSigningLayer {
    /// The ephemeral key, if configured.
    pub closed spec fn ephemeral(&self) -> Option<Seq<u8>> {
        key_view(self.ephemeral_key)
    }

    /// The quorum key, if configured.
    pub closed spec fn quorum(&self) -> Option<Seq<u8>> {
        key_view(self.quorum_key)
    }

    /// Create a builder with no keys configured.
    pub fn builder() -> (res: ResponseSigningLayerBuilder)
        ensures
            res.ephemeral() is None,
            res.quorum() is None,
    {
        ResponseSigningLayerBuilder { ephemeral_key: None, quorum_key: None }
    }

    /// Signs a response of the inner service at unix time `created`
    /// (`None` when the clock could not be read).
    pub fn sign_response_at(
        &self,
        method: &str,
        path: &str,
        status: u16,
        headers: Vec<(String, String)>,
        body: Vec<u8>,
        created: Option<u64>,
    ) -> (res: HttpResponse)
        ensures
            res@ == signing_outcome(
                self.ephemeral(),
                self.quorum(),
                method@,
                path@,
                status,
                headers_view(headers@),
                body@,
                created,
            ),
    {
        let created = match created {
            Some(created) => created,
            None => return internal_error_response("failed to read system time"),
        };
        let digest = content_digest(body.as_slice());
        let mut signature_inputs: Option<String> = None;
        let mut signatures: Option<String> = None;
        let ghost mut eph: Option<Seq<u8>> = None;
        let ghost mut quo: Option<Seq<u8>> = None;

        if let Some(key) = &self.ephemeral_key {
            let input = signature_input("ephemeral", created);
            let base = signature_base(method, path, status, digest.as_str(), "ephemeral", created);
            let signature = match signature_value(key, base.as_slice()) {
                Some(signature) => signature,
                None => {
                    return internal_error_response("failed to sign response with ephemeral key");
                },
            };
            proof {
                eph = qos_p256_signature(key@, base@);
            }
            signature_inputs = Some(labeled_entry("ephemeral", input.as_str()));
            signatures = Some(labeled_entry("ephemeral", signature.as_str()));
        }
        assert(eph == match self.ephemeral() {
            Some(k) => qos_p256_signature(k, signed_bytes(method@, path@, status as nat, body@, "ephemeral"@, created as nat)),
            None => None,
        });
        assert(opt_text(signature_inputs) == input_entry(eph is Some, "ephemeral"@, created as nat));
        assert(opt_text(signatures) == signature_entry(eph, "ephemeral"@));

        if let Some(key) = &self.quorum_key {
            let input = signature_input("quorum", created);
            let base = signature_base(method, path, status, digest.as_str(), "quorum", created);
            let signature = match signature_value(key, base.as_slice()) {
                Some(signature) => signature,
                None => {
                    return internal_error_response("failed to sign response with quorum key");
                },
            };
            proof {
                quo = qos_p256_signature(key@, base@);
            }
            signature_inputs = join_entry(signature_inputs, Some(labeled_entry("quorum", input.as_str())));
            signatures = join_entry(signatures, Some(labeled_entry("quorum", signature.as_str())));
        } else {
            signature_inputs = join_entry(signature_inputs, None);
            signatures = join_entry(signatures, None);
        }
        assert(quo == match self.quorum() {
            Some(k) => qos_p256_signature(k, signed_bytes(method@, path@, status as nat, body@, "quorum"@, created as nat)),
            None => None,
        });
        assert(opt_text(signature_inputs) == join_entries(
            input_entry(eph is Some, "ephemeral"@, created as nat),
            input_entry(quo is Some, "quorum"@, created as nat),
        ));
        assert(opt_text(signatures) == join_entries(
            signature_entry(eph, "ephemeral"@),
            signature_entry(quo, "quorum"@),
        ));

        proof {
            lemma_digest_header_ok(body@);
        }
        if !header_value_accepts(digest.as_str()) {
            return internal_error_response("failed to encode content digest");
        }
        let mut headers = headers;
        insert_header(&mut headers, "content-digest", digest);

        match (signature_inputs, signatures) {
            (Some(input_value), Some(signature_value)) => {
                proof {
                    lemma_literals_header_ok();
                    lemma_input_header_ok("ephemeral"@, created as nat);
                    lemma_input_header_ok("quorum"@, created as nat);
                    lemma_join_ok(
                        input_entry(eph is Some, "ephemeral"@, created as nat),
                        input_entry(quo is Some, "quorum"@, created as nat),
                    );
                    if eph is Some {
                        lemma_signature_entry_ok("ephemeral"@, eph->Some_0);
                    }
                    if quo is Some {
                        lemma_signature_entry_ok("quorum"@, quo->Some_0);
                    }
                    lemma_join_ok(signature_entry(eph, "ephemeral"@), signature_entry(quo, "quorum"@));
                }
                if !header_value_accepts(input_value.as_str()) {
                    return internal_error_response("failed to encode signature input");
                }
                if !header_value_accepts(signature_value.as_str()) {
                    return internal_error_response("failed to encode signature");
                }
                insert_header(&mut headers, "signature-input", input_value);
                insert_header(&mut headers, "signature", signature_value);
            },
            _ => {},
        }
        HttpResponse { status, headers, body }
    }

    /// Signs a response of the inner service at the current time.  `body` is
    /// `None` when the inner body could not be read.
    pub fn sign_response(
        &self,
        method: &str,
        path: &str,
        status: u16,
        headers: Vec<(String, String)>,
        body: Option<Vec<u8>>,
    ) -> (res: HttpResponse)
        ensures
            body is None ==> res@ == error_response_model("failed to read response body"@),
            body is Some ==> exists|created: Option<u64>|
                res@ == signing_outcome(
                    self.ephemeral(),
                    self.quorum(),
                    method@,
                    path@,
                    status,
                    headers_view(headers@),
                    body->Some_0@,
                    created,
                ),
    {
        let body = match body {
            Some(body) => body,
            None => return internal_error_response("failed to read response body"),
        };
        let created = unix_timestamp();
        self.sign_response_at(method, path, status, headers, body, created)
    }
}

} // verus!

verus! {

// ---------------------------------------------------------------------------
// Laws of the signing layer
// ---------------------------------------------------------------------------

/// Every configured key signs the response (no signing failure).
pub open spec fn configured_keys_sign(
    ephemeral_key: Option<Seq<u8>>,
    quorum_key: Option<Seq<u8>>,
    method: Seq<char>,
    path: Seq<char>,
    status: u16,
    body: Seq<u8>,
    created: u64,
) -> bool {
    &&& ephemeral_key matches Some(k) ==> qos_p256_signature(
        k,
        signed_bytes(method, path, status as nat, body, "ephemeral"@, created as nat),
    ) is Some
    &&& quorum_key matches Some(k) ==> qos_p256_signature(
        k,
        signed_bytes(method, path, status as nat, body, "quorum"@, created as nat),
    ) is Some
}

proof fn lemma_header_names_differ()
    ensures
        "content-digest"@ != "signature-input"@,
        "content-digest"@ != "signature"@,
        "signature-input"@ != "signature"@,
{
    reveal_strlit("content-digest");
    reveal_strlit("signature-input");
    reveal_strlit("signature");
    assert("content-digest"@.len() != "signature-input"@.len());
    assert("content-digest"@.len() != "signature"@.len());
    assert("signature-input"@.len() != "signature"@.len());
}

/// Signing never alters the response it signs: status and body stay, the
/// `content-digest` header describes the body, and every header other than
/// the three signature headers is kept exactly.
pub proof fn law_signing_preserves_response(
    ephemeral_key: Option<Seq<u8>>,
    quorum_key: Option<Seq<u8>>,
    method: Seq<char>,
    path: Seq<char>,
    status: u16,
    headers: Seq<(Seq<char>, Seq<char>)>,
    body: Seq<u8>,
    created: u64,
    entry: (Seq<char>, Seq<char>),
)
    requires
        configured_keys_sign(ephemeral_key, quorum_key, method, path, status, body, created),
    ensures
        ({
            let r = signing_outcome(
                ephemeral_key,
                quorum_key,
                method,
                path,
                status,
                headers,
                body,
                Some(created),
            );
            &&& r.status == status
            &&& r.body == body
            &&& r.headers.contains(("content-digest"@, content_digest_text(body)))
            &&& entry.0 != "content-digest"@ && entry.0 != "signature-input"@ && entry.0
                != "signature"@ ==> (r.headers.contains(entry) <==> headers.contains(entry))
        }),
{
    lemma_header_names_differ();
    let digest = content_digest_text(body);
    let h1 = header_insert(headers, "content-digest"@, digest);
    lemma_header_insert_contains(headers, "content-digest"@, digest, entry);
    lemma_header_insert_contains(headers, "content-digest"@, digest, ("content-digest"@, digest));
    let r = signing_outcome(ephemeral_key, quorum_key, method, path, status, headers, body, Some(created));
    let c = created as nat;
    let eph = match ephemeral_key {
        Some(k) => qos_p256_signature(k, signed_bytes(method, path, status as nat, body, "ephemeral"@, c)),
        None => None,
    };
    let quo = match quorum_key {
        Some(k) => qos_p256_signature(k, signed_bytes(method, path, status as nat, body, "quorum"@, c)),
        None => None,
    };
    let inputs = join_entries(
        input_entry(eph is Some, "ephemeral"@, c),
        input_entry(quo is Some, "quorum"@, c),
    );
    let sigs = join_entries(signature_entry(eph, "ephemeral"@), signature_entry(quo, "quorum"@));
    if inputs is Some && sigs is Some {
        let h2 = header_insert(h1, "signature-input"@, inputs->Some_0);
        lemma_header_insert_contains(h1, "signature-input"@, inputs->Some_0, entry);
        lemma_header_insert_contains(h2, "signature"@, sigs->Some_0, entry);
        lemma_header_insert_contains(h1, "signature-input"@, inputs->Some_0, ("content-digest"@, digest));
        lemma_header_insert_contains(h2, "signature"@, sigs->Some_0, ("content-digest"@, digest));
    }
}

/// Only configured keys sign: with just the ephemeral key, the signature
/// headers carry one `ephemeral` entry each and nothing for the quorum key.
pub proof fn law_only_configured_key_signs(
    ephemeral_key: Seq<u8>,
    method: Seq<char>,
    path: Seq<char>,
    status: u16,
    headers: Seq<(Seq<char>, Seq<char>)>,
    body: Seq<u8>,
    created: u64,
)
    requires
        configured_keys_sign(Some(ephemeral_key), None, method, path, status, body, created),
    ensures
        ({
            let r = signing_outcome(
                Some(ephemeral_key),
                None,
                method,
                path,
                status,
                headers,
                body,
                Some(created),
            );
            let sig = qos_p256_signature(
                ephemeral_key,
                signed_bytes(method, path, status as nat, body, "ephemeral"@, created as nat),
            )->Some_0;
            &&& r.headers.contains(
                (
                    "signature-input"@,
                    labeled("ephemeral"@, signature_input_text("ephemeral"@, created as nat)),
                ),
            )
            &&& r.headers.contains(
                ("signature"@, labeled("ephemeral"@, signature_value_text(sig))),
            )
        }),
{
    lemma_header_names_differ();
    let c = created as nat;
    let sig = qos_p256_signature(
        ephemeral_key,
        signed_bytes(method, path, status as nat, body, "ephemeral"@, c),
    )->Some_0;
    let h1 = header_insert(headers, "content-digest"@, content_digest_text(body));
    let i = labeled("ephemeral"@, signature_input_text("ephemeral"@, c));
    let v = labeled("ephemeral"@, signature_value_text(sig));
    let h2 = header_insert(h1, "signature-input"@, i);
    lemma_header_insert_contains(h1, "signature-input"@, i, ("signature-input"@, i));
    lemma_header_insert_contains(h2, "signature"@, v, ("signature-input"@, i));
    lemma_header_insert_contains(h2, "signature"@, v, ("signature"@, v));
}

/// Only configured keys sign: with just the quorum key, the signature
/// headers carry one `quorum` entry each and nothing for the ephemeral key.
pub proof fn law_only_quorum_key_signs(
    quorum_key: Seq<u8>,
    method: Seq<char>,
    path: Seq<char>,
    status: u16,
    headers: Seq<(Seq<char>, Seq<char>)>,
    body: Seq<u8>,
    created: u64,
)
    requires
        configured_keys_sign(None, Some(quorum_key), method, path, status, body, created),
    ensures
        ({
            let r = signing_outcome(
                None,
                Some(quorum_key),
                method,
                path,
                status,
                headers,
                body,
                Some(created),
            );
            let sig = qos_p256_signature(
                quorum_key,
                signed_bytes(method, path, status as nat, body, "quorum"@, created as nat),
            )->Some_0;
            &&& r.headers.contains(
                ("signature-input"@, labeled("quorum"@, signature_input_text("quorum"@, created as nat))),
            )
            &&& r.headers.contains(("signature"@, labeled("quorum"@, signature_value_text(sig))))
        }),
{
    lemma_header_names_differ();
    let c = created as nat;
    let sig = qos_p256_signature(
        quorum_key,
        signed_bytes(method, path, status as nat, body, "quorum"@, c),
    )->Some_0;
    let h1 = header_insert(headers, "content-digest"@, content_digest_text(body));
    let i = labeled("quorum"@, signature_input_text("quorum"@, c));
    let v = labeled("quorum"@, signature_value_text(sig));
    let h2 = header_insert(h1, "signature-input"@, i);
    lemma_header_insert_contains(h1, "signature-input"@, i, ("signature-input"@, i));
    lemma_header_insert_contains(h2, "signature"@, v, ("signature-input"@, i));
    lemma_header_insert_contains(h2, "signature"@, v, ("signature"@, v));
}

/// The signature a configured key makes for the response (`None` for a key
/// slot that is empty).
pub open spec fn key_signature(
    key: Option<Seq<u8>>,
    label: Seq<char>,
    method: Seq<char>,
    path: Seq<char>,
    status: u16,
    body: Seq<u8>,
    created: u64,
) -> Option<Seq<u8>> {
    match key {
        Some(k) => qos_p256_signature(k, signed_bytes(method, path, status as nat, body, label, created as nat)),
        None => None,
    }
}

/// Whatever keys are configured, the response carries an `ephemeral` entry
/// exactly when the ephemeral key is configured and a `quorum` entry exactly
/// when the quorum key is, each signing with its own key, the ephemeral entry
/// first; the signature headers are present as soon as one key is.
pub proof fn law_entries_follow_configured_keys(
    ephemeral_key: Option<Seq<u8>>,
    quorum_key: Option<Seq<u8>>,
    method: Seq<char>,
    path: Seq<char>,
    status: u16,
    headers: Seq<(Seq<char>, Seq<char>)>,
    body: Seq<u8>,
    created: u64,
)
    requires
        configured_keys_sign(ephemeral_key, quorum_key, method, path, status, body, created),
    ensures
        ({
            let r = signing_outcome(
                ephemeral_key,
                quorum_key,
                method,
                path,
                status,
                headers,
                body,
                Some(created),
            );
            let c = created as nat;
            let e = key_signature(ephemeral_key, "ephemeral"@, method, path, status, body, created);
            let q = key_signature(quorum_key, "quorum"@, method, path, status, body, created);
            let inputs = join_entries(
                input_entry(e is Some, "ephemeral"@, c),
                input_entry(q is Some, "quorum"@, c),
            );
            let signatures = join_entries(
                signature_entry(e, "ephemeral"@),
                signature_entry(q, "quorum"@),
            );
            &&& (e is Some <==> ephemeral_key is Some)
            &&& (q is Some <==> quorum_key is Some)
            &&& (input_entry(e is Some, "ephemeral"@, c) is Some <==> ephemeral_key is Some)
            &&& (input_entry(q is Some, "quorum"@, c) is Some <==> quorum_key is Some)
            &&& (signature_entry(e, "ephemeral"@) is Some <==> ephemeral_key is Some)
            &&& (signature_entry(q, "quorum"@) is Some <==> quorum_key is Some)
            &&& (ephemeral_key is Some || quorum_key is Some) ==> {
                &&& r.headers.contains(("signature-input"@, inputs->Some_0))
                &&& r.headers.contains(("signature"@, signatures->Some_0))
            }
            &&& (ephemeral_key is None && quorum_key is None) ==> r == (ResponseModel {
                status,
                headers: header_insert(headers, "content-digest"@, content_digest_text(body)),
                body,
            })
        }),
{
    lemma_header_names_differ();
    let c = created as nat;
    let e = key_signature(ephemeral_key, "ephemeral"@, method, path, status, body, created);
    let q = key_signature(quorum_key, "quorum"@, method, path, status, body, created);
    let inputs = join_entries(input_entry(e is Some, "ephemeral"@, c), input_entry(q is Some, "quorum"@, c));
    let signatures = join_entries(signature_entry(e, "ephemeral"@), signature_entry(q, "quorum"@));
    if ephemeral_key is Some || quorum_key is Some {
        let h1 = header_insert(headers, "content-digest"@, content_digest_text(body));
        let i = inputs->Some_0;
        let v = signatures->Some_0;
        let h2 = header_insert(h1, "signature-input"@, i);
        lemma_header_insert_contains(h1, "signature-input"@, i, ("signature-input"@, i));
        lemma_header_insert_contains(h2, "signature"@, v, ("signature-input"@, i));
        lemma_header_insert_contains(h2, "signature"@, v, ("signature"@, v));
    }
}

/// With both keys, each key signs the bytes for its own label, and both
/// signatures carry the same creation time: `signature-input` lists the
/// ephemeral entry, then the quorum entry.
pub proof fn law_both_keys_sign_in_order(
    ephemeral_key: Seq<u8>,
    quorum_key: Seq<u8>,
    method: Seq<char>,
    path: Seq<char>,
    status: u16,
    headers: Seq<(Seq<char>, Seq<char>)>,
    body: Seq<u8>,
    created: u64,
)
    requires
        configured_keys_sign(Some(ephemeral_key), Some(quorum_key), method, path, status, body, created),
    ensures
        ({
            let r = signing_outcome(
                Some(ephemeral_key),
                Some(quorum_key),
                method,
                path,
                status,
                headers,
                body,
                Some(created),
            );
            let c = created as nat;
            let e = qos_p256_signature(
                ephemeral_key,
                signed_bytes(method, path, status as nat, body, "ephemeral"@, c),
            )->Some_0;
            let q = qos_p256_signature(
                quorum_key,
                signed_bytes(method, path, status as nat, body, "quorum"@, c),
            )->Some_0;
            &&& r.headers.contains(
                (
                    "signature-input"@,
                    labeled("ephemeral"@, signature_input_text("ephemeral"@, c)) + ", "@ + labeled(
                        "quorum"@,
                        signature_input_text("quorum"@, c),
                    ),
                ),
            )
            &&& r.headers.contains(
                (
                    "signature"@,
                    labeled("ephemeral"@, signature_value_text(e)) + ", "@ + labeled(
                        "quorum"@,
                        signature_value_text(q),
                    ),
                ),
            )
        }),
{
    lemma_header_names_differ();
    let c = created as nat;
    let e = qos_p256_signature(
        ephemeral_key,
        signed_bytes(method, path, status as nat, body, "ephemeral"@, c),
    )->Some_0;
    let q = qos_p256_signature(
        quorum_key,
        signed_bytes(method, path, status as nat, body, "quorum"@, c),
    )->Some_0;
    let h1 = header_insert(headers, "content-digest"@, content_digest_text(body));
    let i = labeled("ephemeral"@, signature_input_text("ephemeral"@, c)) + ", "@ + labeled(
        "quorum"@,
        signature_input_text("quorum"@, c),
    );
    let v = labeled("ephemeral"@, signature_value_text(e)) + ", "@ + labeled(
        "quorum"@,
        signature_value_text(q),
    );
    let h2 = header_insert(h1, "signature-input"@, i);
    lemma_header_insert_contains(h1, "signature-input"@, i, ("signature-input"@, i));
    lemma_header_insert_contains(h2, "signature"@, v, ("signature-input"@, i));
    lemma_header_insert_contains(h2, "signature"@, v, ("signature"@, v));
}

/// Without keys the layer only adds the content digest.
pub proof fn law_no_keys_only_digest(
    method: Seq<char>,
    path: Seq<char>,
    status: u16,
    headers: Seq<(Seq<char>, Seq<char>)>,
    body: Seq<u8>,
    created: u64,
)
    ensures
        signing_outcome(None, None, method, path, status, headers, body, Some(created)) == (
        ResponseModel {
            status,
            headers: header_insert(headers, "content-digest"@, content_digest_text(body)),
            body,
        }),
{
}

} // verus!
