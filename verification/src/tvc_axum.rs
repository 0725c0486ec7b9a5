//! Axum adapters for Turnkey Verifiable Cloud applications: canonical-JSON
//! responses and response signing.

pub mod binding;
pub mod qos_json_response;
pub mod response_signing;

use vstd::prelude::*;
use vstd::string::StrSliceExecFns;
use vstd::utf8::encode_utf8;
use crate::http::{HttpResponse, ResponseModel};

verus! {

/// Axum response adapter that serializes response bodies with `qos_json`.
pub struct QosJson<T>(pub T);

/// The response for a value whose canonical serialization is `canonical`
/// (`None` when serialization failed).
pub open spec fn qos_json_model(canonical: Option<Seq<u8>>) -> ResponseModel {
    match canonical {
        Some(bytes) => ResponseModel {
            status: 200,
            headers: seq![("content-type"@, "application/json"@)],
            body: bytes,
        },
        None => ResponseModel {
            status: 500,
            headers: seq![("content-type"@, "application/json"@)],
            body: encode_utf8("{\"error\":\"serialization failed\"}"@),
        },
    }
}

impl<T> QosJson<T> {
    /// The HTTP response carrying the canonical JSON bytes of the value, or a
    /// 500 JSON error when serialization failed.
    pub fn into_response(self, canonical: Option<Vec<u8>>) -> (res: HttpResponse)
        ensures
            res@ == qos_json_model(
                match canonical {
                    Some(b) => Some(b@),
                    None => None,
                },
            ),
    {
        let mut headers: Vec<(String, String)> = Vec::new();
        headers.push(("content-type".to_string(), "application/json".to_string()));
        let res = match canonical {
            Some(body) => HttpResponse { status: 200, headers, body },
            None => HttpResponse {
                status: 500,
                headers,
                body: "{\"error\":\"serialization failed\"}".as_bytes_vec(),
            },
        };
        assert(res@.headers =~= seq![("content-type"@, "application/json"@)]);
        res
    }
}

} // verus!
