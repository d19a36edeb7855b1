//! Request/reply engine of a filesystem-in-userspace library: the parser for
//! kernel packets, reply framing, and the protocol state machine that decides
//! how each request is answered.
pub mod abi;
pub mod ll;
pub mod reply;
pub mod request;
pub mod session;
pub mod wire;
