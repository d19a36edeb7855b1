//! Low-level protocol: the typed form of kernel request packets.
pub mod request;

pub use self::request::{Opcode, Operation, Request, RequestError};
