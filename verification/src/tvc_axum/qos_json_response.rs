//! Response adapter for QOS canonical JSON with a plain-text failure body.
//!
//! `qos_json` produces canonical JSON bytes (sorted keys, null object fields
//! omitted, integers as strings); the caller serializes the wrapped value and
//! hands the outcome to [`QosJson::into_response`].

use vstd::prelude::*;
use vstd::string::StrSliceExecFns;
use vstd::utf8::encode_utf8;
use crate::http::{HttpResponse, ResponseModel};

verus! {

/// Response adapter that serializes its inner value with `qos_json`.
pub struct QosJson<T>(
    /// The value serialized as QOS canonical JSON.
    pub T,
);

/// The response for a value whose canonical serialization came out as
/// `canonical` (`Err` holds the display text of the serializer's error).
pub open spec fn qos_json_response_model(canonical: Result<Seq<u8>, Seq<char>>) -> ResponseModel {
    match canonical {
        Ok(bytes) => ResponseModel {
            status: 200,
            headers: seq![("content-type"@, "application/json"@)],
            body: bytes,
        },
        Err(error) => ResponseModel {
            status: 500,
            headers: seq![("content-type"@, "text/plain; charset=utf-8"@)],
            body: encode_utf8("failed to serialize QOS JSON response: "@ + error),
        },
    }
}

/// The view of a serialization outcome.
pub open spec fn canonical_view(canonical: Result<Vec<u8>, String>) -> Result<Seq<u8>, Seq<char>> {
    match canonical {
        Ok(bytes) => Ok(bytes@),
        Err(error) => Err(error@),
    }
}

impl<T> QosJson<T> {
    /// The HTTP response carrying the canonical JSON bytes of the value, or a
    /// 500 plain-text response when serialization failed.
    pub fn into_response(self, canonical: Result<Vec<u8>, String>) -> (res: HttpResponse)
        ensures
            res@ == qos_json_response_model(canonical_view(canonical)),
    {
        match canonical {
            Ok(body) => {
                let mut headers: Vec<(String, String)> = Vec::new();
                headers.push(("content-type".to_string(), "application/json".to_string()));
                let res = HttpResponse { status: 200, headers, body };
                assert(res@.headers =~= seq![("content-type"@, "application/json"@)]);
                res
            },
            Err(error) => {
                let mut text = String::new();
                text.append("failed to serialize QOS JSON response: ");
                text.append(error.as_str());
                let mut headers: Vec<(String, String)> = Vec::new();
                headers.push(
                    ("content-type".to_string(), "text/plain; charset=utf-8".to_string()),
                );
                let res = HttpResponse { status: 500, headers, body: text.as_str().as_bytes_vec() };
                assert(text@ =~= "failed to serialize QOS JSON response: "@ + error@);
                assert(res@.headers =~= seq![("content-type"@, "text/plain; charset=utf-8"@)]);
                res
            },
        }
    }
}

} // verus!
