//! The download route's replies: what the enclave reports after fetching a
//! document through (optionally) a fixed upstream address.

use vstd::prelude::*;
use crate::codec::{hex_encode, hex_lower, sha256, sha256_digest, status_code_from_u16};

verus! {

/// The document the route downloads.
pub const DOWNLOAD_URL: &'static str = "https://bitcoin.org/bitcoin.pdf";

/// A duration as whole seconds and the remaining nanoseconds.
pub struct DlDuration {
    pub secs: u64,
    pub nanos: u32,
}

/// The download report.
pub struct DlResponse {
    pub status: u16,
    pub size: usize,
    pub duration: DlDuration,
    pub sha256sum: String,
    pub error: Option<String>,
}

/// How a download went, as the HTTP edge observed it.
pub enum DownloadEvent {
    /// The override address did not parse; the parser's message.
    BadOverride(String),
    /// The upstream answered with an error status and status text.
    UpstreamStatus(u16, String),
    /// The request failed in transport; the error text.
    Transport(String),
    /// The response body could not be read; the error text.
    UnreadableBody(String),
    /// The body was read in full.
    Completed { status: u16, body: Vec<u8>, duration: DlDuration },
    /// The blocking task failed; the join error text.
    TaskFailed(String),
}

impl DlResponse {
    /// The report of a failed download: no size, no digest, zero duration.
    pub fn error(code: u16, msg: String) -> (res: Self)
        ensures
            res.status == code,
            res.size == 0,
            res.duration.secs == 0 && res.duration.nanos == 0,
            res.sha256sum@ == Seq::<char>::empty(),
            res.error matches Some(e) && e@ == msg@,
    {
        DlResponse {
            status: code,
            size: 0,
            duration: DlDuration { secs: 0, nanos: 0 },
            sha256sum: String::new(),
            error: Some(msg),
        }
    }
}

/// The reply status for an upstream error status: the same code when it is a
/// valid status code, 500 otherwise.
pub open spec fn upstream_reply_code(code: u16) -> u16 {
    if 100 <= code <= 999 {
        code
    } else {
        500
    }
}

/// A failure report with this code and message.
pub open spec fn is_failure(res: (u16, DlResponse), code: u16, msg: Seq<char>) -> bool {
    &&& res.0 == code
    &&& res.1.status == code
    &&& res.1.size == 0
    &&& res.1.duration.secs == 0 && res.1.duration.nanos == 0
    &&& res.1.sha256sum@.len() == 0
    &&& res.1.error matches Some(e) && e@ == msg
}

/// The reply for a download event.
pub fn download_reply(event: DownloadEvent) -> (res: (u16, DlResponse))
    ensures
        match event {
            DownloadEvent::BadOverride(m) => is_failure(res, 400, m@),
            DownloadEvent::UpstreamStatus(code, text) => is_failure(res, upstream_reply_code(code), text@),
            DownloadEvent::Transport(m) => is_failure(res, 500, m@),
            DownloadEvent::UnreadableBody(m) => is_failure(res, 400, m@),
            DownloadEvent::TaskFailed(m) => is_failure(res, 500, m@),
            DownloadEvent::Completed { status, body, duration } => {
                &&& res.0 == 200
                &&& res.1.status == status
                &&& res.1.size == body@.len()
                &&& res.1.duration == duration
                &&& res.1.sha256sum@ == hex_lower(sha256_digest(body@))
                &&& res.1.error is None
            },
        },
{
    match event {
        DownloadEvent::BadOverride(m) => (400, DlResponse::error(400, m)),
        DownloadEvent::UpstreamStatus(code, text) => {
            let reply = match status_code_from_u16(code) {
                Some(valid) => valid,
                None => 500,
            };
            (reply, DlResponse::error(reply, text))
        },
        DownloadEvent::Transport(m) => (500, DlResponse::error(500, m)),
        DownloadEvent::UnreadableBody(m) => (400, DlResponse::error(400, m)),
        DownloadEvent::TaskFailed(m) => (500, DlResponse::error(500, m)),
        DownloadEvent::Completed { status, body, duration } => {
            let size = body.len();
            let digest = sha256(body.as_slice());
            let sha256sum = hex_encode(digest.as_slice());
            (200, DlResponse { status, size, duration, sha256sum, error: None })
        },
    }
}

} // verus!
