//! The command-execution core of a key-value service: a value and request
//! model, a storage contract with an in-memory concurrent backend, and a
//! dispatch layer that turns decoded requests into responses.

pub mod command_service;
pub mod errors;
pub mod laws;
pub mod memory;
pub mod pb;
pub mod service;
pub mod storage;

use vstd::prelude::*;

pub use errors::KvError;
pub use memory::MemTable;
pub use service::{dispatch, CommandService, Service, ServiceInner};
pub use storage::Storage;

pub use pb::{
    CommandRequest, CommandResponse, Hdel, Hexist, Hget, Hgetall, Hmdel, Hmexist, Hmget, Hmset,
    Hset, KvPair, RequestData, StringWrapper, Value, ValueView, STATUS_BAD_REQUEST,
    STATUS_INTERNAL, STATUS_NOT_FOUND, STATUS_OK,
};

verus! {

/// Adds two machine-word counters.
pub fn add(left: usize, right: usize) -> (r: usize)
    requires
        left + right <= usize::MAX,
    ensures
        r == left + right,
{
    left + right
}

} // verus!
