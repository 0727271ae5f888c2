//! A reverse proxy's core: the port search used when a requested port is
//! taken, the forwarding rules that turn an inbound request into an upstream
//! call and the upstream's answer into the client's response, the rewrite of
//! the upstream address when the origin moved to another port, and the
//! startup sequence that binds both listeners.
use vstd::prelude::*;

pub mod forward;
pub mod port;
pub mod supervisor;
pub mod upstream;

verus! {

} // verus!
