//! Verified core of a Turnkey Verifiable Cloud application template: HTTP
//! message signatures over responses, Turnkey activity stamping, a notary
//! service state machine and the decisions of the integration-test harness.

pub mod clock;
pub mod codec;
pub mod http;
pub mod keys;
pub mod text;
pub mod tvc_axum;
pub mod helloworld;
pub mod notary;
pub mod reply;
pub mod harness;
