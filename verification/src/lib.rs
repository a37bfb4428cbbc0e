use vstd::prelude::*;

pub mod agents;
pub mod amp;
pub mod auth;
pub mod clock;
pub mod codex;
pub mod driver;
pub mod errors;
pub mod json;
pub mod modes;
pub mod opencode;
pub mod rpc;
pub mod scribe;
pub mod session;
pub mod sse;
pub mod text;
pub mod universal;

verus! {

} // verus!
