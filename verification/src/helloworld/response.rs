//! Response helpers for QOS canonical JSON and the application's error
//! response.

use vstd::prelude::*;
use vstd::string::StrSliceExecFns;
use vstd::utf8::encode_utf8;
use crate::codec::{json_quoted, json_string};
use crate::http::{HttpResponse, ResponseModel};

verus! {

/// JSON response serialized with QOS canonical JSON.
pub struct QosJson<T>(pub T);

/// Application error response: a status and a message.
pub struct AppError {
    status: u16,
    message: String,
}

/// The canonical JSON error body `{"error":<message>}`.
pub open spec fn error_body(message: Seq<char>) -> Seq<u8> {
    encode_utf8("{\"error\":"@ + json_quoted(message) + "}"@)
}

/// The response that an error with this status and message becomes.
pub open spec fn app_error_model(status: u16, message: Seq<char>) -> ResponseModel {
    ResponseModel {
        status,
        headers: seq![("content-type"@, "application/json"@)],
        body: error_body(message),
    }
}

/// The response for a value whose canonical serialization is `canonical`.
pub open spec fn qos_json_model(canonical: Result<Seq<u8>, Seq<char>>) -> ResponseModel {
    match canonical {
        Ok(bytes) => ResponseModel {
            status: 200,
            headers: seq![("content-type"@, "application/json"@)],
            body: bytes,
        },
        Err(error) => app_error_model(500, "failed to serialize response: "@ + error),
    }
}

impl AppError {
    /// The status the error responds with.
    pub closed spec fn status_code(&self) -> u16 {
        self.status
    }

    /// The error message.
    pub closed spec fn message_text(&self) -> Seq<char> {
        self.message@
    }

    /// Create an internal server error.
    pub fn internal(message: String) -> (res: Self)
        ensures
            res.status_code() == 500,
            res.message_text() == message@,
    {
        AppError { status: 500, message }
    }

    /// The canonical JSON error response `{"error":<message>}` with the
    /// error's status.
    pub fn into_response(self) -> (res: HttpResponse)
        ensures
            res@ == app_error_model(self.status_code(), self.message_text()),
    {
        let mut headers: Vec<(String, String)> = Vec::new();
        headers.push(("content-type".to_string(), "application/json".to_string()));
        let quoted = match json_string(self.message.as_str()) {
            Ok(quoted) => quoted,
            Err(_) => String::new(),
        };
        let mut text = String::new();
        text.append("{\"error\":");
        text.append(quoted.as_str());
        text.append("}");
        assert(text@ =~= "{\"error\":"@ + json_quoted(self.message@) + "}"@);
        let res = HttpResponse { status: self.status, headers, body: text.as_str().as_bytes_vec() };
        assert(res@.headers =~= seq![("content-type"@, "application/json"@)]);
        res
    }
}

/// The view of a serialization outcome.
pub open spec fn canonical_view(canonical: Result<Vec<u8>, String>) -> Result<Seq<u8>, Seq<char>> {
    match canonical {
        Ok(bytes) => Ok(bytes@),
        Err(error) => Err(error@),
    }
}

impl<T> QosJson<T> {
    /// The response carrying the canonical JSON bytes of the value; when
    /// serialization failed, the internal-error response naming the failure.
    pub fn into_response(self, canonical: Result<Vec<u8>, String>) -> (res: HttpResponse)
        ensures
            res@ == qos_json_model(canonical_view(canonical)),
    {
        match canonical {
            Ok(body) => {
                let mut headers: Vec<(String, String)> = Vec::new();
                headers.push(("content-type".to_string(), "application/json".to_string()));
                let res = HttpResponse { status: 200, headers, body };
                assert(res@.headers =~= seq![("content-type"@, "application/json"@)]);
                res
            },
            Err(error) => {
                let mut message = String::new();
                message.append("failed to serialize response: ");
                message.append(error.as_str());
                assert(message@ =~= "failed to serialize response: "@ + error@);
                AppError::internal(message).into_response()
            },
        }
    }
}

} // verus!
