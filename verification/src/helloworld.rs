//! The Hello World TVC server: response helpers, Turnkey transaction
//! stamping, body signing and the route handlers' decisions.

pub mod response;
pub mod turnkey;
pub mod signing;
pub mod cli;
pub mod diagnostics;
pub mod dl;
