//! Replies of the JSON route handlers: a status and a structured body that
//! the HTTP edge writes as JSON; and the handlers that need no state.

use vstd::prelude::*;
use crate::clock::{seconds_since_unix_epoch, system_time_now};

verus! {

/// The body of a reply, before it is written as JSON.
pub enum ReplyBody {
    /// `{"status": "healthy"}`
    Health,
    /// `{"message": "hello world"}`
    HelloWorld,
    /// `{"time": <unix seconds>}`
    Time { time: u64 },
    /// `{"hash": .., "timestamp": .., "receipt_id": ..}`
    Receipt { hash: String, timestamp: u64, receipt_id: u64 },
    /// `{"total_notarized": ..}`
    Stats { total_notarized: u64 },
    /// `{"error": ..}`
    Error { error: String },
}

/// A reply: HTTP status and body.
pub struct Reply {
    pub status: u16,
    pub body: ReplyBody,
}

/// The content of a reply body.
pub enum BodyModel {
    Health,
    HelloWorld,
    Time { time: u64 },
    Receipt { hash: Seq<char>, timestamp: u64, receipt_id: u64 },
    Stats { total_notarized: u64 },
    Error { error: Seq<char> },
}

/// The content of a reply.
pub struct ReplyModel {
    pub status: u16,
    pub body: BodyModel,
}

impl View for Reply {
    type V = ReplyModel;

    open spec fn view(&self) -> ReplyModel {
        ReplyModel {
            status: self.status,
            body: match self.body {
                ReplyBody::Health => BodyModel::Health,
                ReplyBody::HelloWorld => BodyModel::HelloWorld,
                ReplyBody::Time { time } => BodyModel::Time { time },
                ReplyBody::Receipt { hash, timestamp, receipt_id } => BodyModel::Receipt {
                    hash: hash@,
                    timestamp,
                    receipt_id,
                },
                ReplyBody::Stats { total_notarized } => BodyModel::Stats { total_notarized },
                ReplyBody::Error { error } => BodyModel::Error { error: error@ },
            },
        }
    }
}

/// An error reply.
pub open spec fn error_reply(status: u16, error: Seq<char>) -> ReplyModel {
    ReplyModel { status, body: BodyModel::Error { error } }
}

/// The view of a clock reading.
pub open spec fn now_view(now: Result<u64, String>) -> Result<u64, Seq<char>> {
    match now {
        Ok(t) => Ok(t),
        Err(e) => Err(e@),
    }
}

/// `prefix` followed by `detail`.
pub fn joined(prefix: &str, detail: &str) -> (res: String)
    ensures
        res@ == prefix@ + detail@,
{
    let mut out = String::new();
    out.append(prefix);
    out.append(detail);
    assert(out@ =~= prefix@ + detail@);
    out
}

/// `{"status": "healthy"}`
pub fn health() -> (reply: Reply)
    ensures
        reply@ == (ReplyModel { status: 200, body: BodyModel::Health }),
{
    Reply { status: 200, body: ReplyBody::Health }
}

/// `{"message": "hello world"}`
pub fn hello_world() -> (reply: Reply)
    ensures
        reply@ == (ReplyModel { status: 200, body: BodyModel::HelloWorld }),
{
    Reply { status: 200, body: ReplyBody::HelloWorld }
}

/// The time reply for a clock reading.
pub open spec fn time_model(now: Result<u64, Seq<char>>) -> ReplyModel {
    match now {
        Ok(t) => ReplyModel { status: 200, body: BodyModel::Time { time: t } },
        Err(e) => error_reply(500, "system clock error: "@ + e),
    }
}

/// The current unix time, or a 500 naming the clock error.
pub fn time_at(now: Result<u64, String>) -> (reply: Reply)
    ensures
        reply@ == time_model(now_view(now)),
{
    match now {
        Ok(time) => Reply { status: 200, body: ReplyBody::Time { time } },
        Err(e) => Reply {
            status: 500,
            body: ReplyBody::Error { error: joined("system clock error: ", e.as_str()) },
        },
    }
}

/// The time reply for the current clock reading.
pub fn time() -> (reply: Reply)
    ensures
        exists|now: Result<u64, Seq<char>>| reply@ == time_model(now),
{
    let now = seconds_since_unix_epoch(system_time_now());
    time_at(now)
}

/// The request body, returned unchanged with status 200.
pub fn echo(body: Vec<u8>) -> (res: (u16, Vec<u8>))
    ensures
        res.0 == 200,
        res.1@ == body@,
{
    (200, body)
}

} // verus!
