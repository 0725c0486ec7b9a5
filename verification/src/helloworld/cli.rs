//! Command-line settings of the Hello World server.

use vstd::prelude::*;
use crate::text::{decimal, push_decimal};

verus! {

/// Hello World REST server settings.
pub struct Cli {
    /// IP address to listen on
    pub host: String,
    /// Port to listen on
    pub port: u16,
    /// Path to the quorum key file
    pub quorum_file: String,
    /// Path to the ephemeral key file used for app proofs
    pub ephemeral_file: String,
    /// Path to the QOS manifest envelope file
    pub manifest_file: String,
    /// Use a mock NSM for local development. This is not production-safe.
    pub unsafe_mock_nsm: bool,
}

impl Cli {
    /// `host:port`, the address the server binds.
    pub fn listen_address(&self) -> (res: String)
        ensures
            res@ == self.host@ + ":"@ + decimal(self.port as nat),
    {
        let mut out = String::new();
        out.append(self.host.as_str());
        out.append(":");
        push_decimal(&mut out, self.port as u64);
        assert(out@ =~= self.host@ + ":"@ + decimal(self.port as nat));
        out
    }
}

} // verus!
