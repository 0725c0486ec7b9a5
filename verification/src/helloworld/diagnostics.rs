//! Egress diagnostics: classification of a failed outbound request and the
//! reply of the IP-check routes.

use vstd::prelude::*;

verus! {

/// Plain-HTTP IP check target.
pub const RAW_IP_CHECK_URL: &'static str = "http://1.1.1.1/";

/// TLS IP check target.
pub const TLS_IP_CHECK_URL: &'static str = "https://1.1.1.1/";

/// What an outbound request error reports about itself.
pub struct RequestErrorKinds {
    pub timeout: bool,
    pub connect: bool,
    pub redirect: bool,
    pub decode: bool,
    pub body: bool,
}

/// The failure kind, the first that applies in the order timeout, connect,
/// redirect, decode, body; `other` when none does.
pub open spec fn failure_kind_text(e: RequestErrorKinds) -> Seq<char> {
    if e.timeout {
        "timeout"@
    } else if e.connect {
        "connect"@
    } else if e.redirect {
        "redirect"@
    } else if e.decode {
        "decode"@
    } else if e.body {
        "body"@
    } else {
        "other"@
    }
}

/// Classifies a failed outbound request.
pub fn reqwest_error_kind(e: &RequestErrorKinds) -> (res: &'static str)
    ensures
        res@ == failure_kind_text(*e),
{
    if e.timeout {
        "timeout"
    } else if e.connect {
        "connect"
    } else if e.redirect {
        "redirect"
    } else if e.decode {
        "decode"
    } else if e.body {
        "body"
    } else {
        "other"
    }
}

/// The body of an IP-check reply.
pub enum IpCheckReply {
    /// `{"ok": true, "requested_url": .., "upstream_status": ..}`
    Reached { requested_url: String, upstream_status: u16 },
    /// `{"ok": false, "requested_url": .., "failure_kind": .., "request_error": ..}`
    Failed { requested_url: String, failure_kind: String, request_error: String },
}

/// The IP-check reply for `url`: 200 with the upstream status when the
/// request got a response, 502 with the failure kind and error text
/// otherwise.
pub fn ip_check_reply(url: &str, outcome: Result<u16, (RequestErrorKinds, String)>) -> (res: (
    u16,
    IpCheckReply,
))
    ensures
        match outcome {
            Ok(upstream) => res.0 == 200 && (res.1 matches IpCheckReply::Reached {
                requested_url,
                upstream_status,
            } && requested_url@ == url@ && upstream_status == upstream),
            Err((kinds, error)) => res.0 == 502 && (res.1 matches IpCheckReply::Failed {
                requested_url,
                failure_kind,
                request_error,
            } && requested_url@ == url@ && failure_kind@ == failure_kind_text(kinds)
                && request_error@ == error@),
        },
{
    match outcome {
        Ok(upstream_status) => (
            200,
            IpCheckReply::Reached { requested_url: url.to_string(), upstream_status },
        ),
        Err((kinds, request_error)) => (
            502,
            IpCheckReply::Failed {
                requested_url: url.to_string(),
                failure_kind: reqwest_error_kind(&kinds).to_string(),
                request_error,
            },
        ),
    }
}

} // verus!
