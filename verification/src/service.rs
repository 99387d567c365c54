//! Command dispatch and the service facade.
//!
//! `dispatch` resolves the active variant of a request and executes exactly
//! one handler policy against the storage backend; a request with no active
//! variant converts to a malformed-request response. `Service` wraps one
//! backend instance and forwards every request to `dispatch`.

use vstd::prelude::*;
use vstd::string::StringExecFns;

use crate::errors::KvError;
use crate::memory::MemTable;
use crate::pb::{resp_error, resp_invalid, CommandRequest, CommandResponse, RequestData, RespView};
use crate::storage::{Storage, StoreView};

verus! {

/// The handling of one command kind: what it does to the store and what
/// response it produces. Every command variant implements this, so adding a
/// new kind forces every dispatcher to acknowledge it.
pub trait CommandService: Sized {
    /// The store contents after this command runs against contents `s`.
    spec fn next_store(self, s: StoreView) -> StoreView;

    /// Whether `r` is the response this command produces against contents
    /// `s`. Commands whose response lists pairs leave their order open;
    /// everything else is pinned exactly.
    spec fn resp_ok(self, s: StoreView, r: RespView) -> bool;

    /// Processes this command against `store` and returns the response.
    fn execute<S: Storage>(self, store: &mut S) -> (r: CommandResponse)
        ensures
            final(store).contents() == self.next_store(old(store).contents()),
            self.resp_ok(old(store).contents(), r@),
    ;
}

/// The store contents after `cmd` runs against contents `s`.
pub open spec fn dispatch_next_store(cmd: CommandRequest, s: StoreView) -> StoreView {
    match cmd.request_data {
        Some(RequestData::Hset(c)) => c.next_store(s),
        Some(RequestData::Hget(c)) => c.next_store(s),
        Some(RequestData::Hgetall(c)) => c.next_store(s),
        Some(RequestData::Hmget(c)) => c.next_store(s),
        Some(RequestData::Hmset(c)) => c.next_store(s),
        Some(RequestData::Hdel(c)) => c.next_store(s),
        Some(RequestData::Hmdel(c)) => c.next_store(s),
        Some(RequestData::Hexist(c)) => c.next_store(s),
        Some(RequestData::Hmexist(c)) => c.next_store(s),
        None => s,
    }
}

/// Whether `r` is the response `cmd` produces against contents `s`.
pub open spec fn dispatch_resp_ok(cmd: CommandRequest, s: StoreView, r: RespView) -> bool {
    match cmd.request_data {
        Some(RequestData::Hset(c)) => c.resp_ok(s, r),
        Some(RequestData::Hget(c)) => c.resp_ok(s, r),
        Some(RequestData::Hgetall(c)) => c.resp_ok(s, r),
        Some(RequestData::Hmget(c)) => c.resp_ok(s, r),
        Some(RequestData::Hmset(c)) => c.resp_ok(s, r),
        Some(RequestData::Hdel(c)) => c.resp_ok(s, r),
        Some(RequestData::Hmdel(c)) => c.resp_ok(s, r),
        Some(RequestData::Hexist(c)) => c.resp_ok(s, r),
        Some(RequestData::Hmexist(c)) => c.resp_ok(s, r),
        None => r == resp_invalid("Request has no data"@),
    }
}

/// Resolves the active variant of `cmd` and executes its policy against
/// `store`. A request with no active variant changes nothing and produces
/// the malformed-request response.
pub fn dispatch<S: Storage>(cmd: CommandRequest, store: &mut S) -> (r: CommandResponse)
    ensures
        final(store).contents() == dispatch_next_store(cmd, old(store).contents()),
        dispatch_resp_ok(cmd, old(store).contents(), r@),
{
    match cmd.request_data {
        Some(RequestData::Hset(param)) => param.execute(store),
        Some(RequestData::Hget(param)) => param.execute(store),
        Some(RequestData::Hgetall(param)) => param.execute(store),
        Some(RequestData::Hmget(param)) => param.execute(store),
        Some(RequestData::Hmset(param)) => param.execute(store),
        Some(RequestData::Hdel(param)) => param.execute(store),
        Some(RequestData::Hmdel(param)) => param.execute(store),
        Some(RequestData::Hexist(param)) => param.execute(store),
        Some(RequestData::Hmexist(param)) => param.execute(store),
        None => CommandResponse::from_error(
            KvError::InvalidCommand(String::from_str("Request has no data")),
        ),
    }
}

/// The inner state of a service: the one backend instance it owns.
pub struct ServiceInner<Store> {
    store: Store,
}

/// The service facade: one backend instance behind a single
/// `execute(request) -> response` entry point.
pub struct Service<Store = MemTable> {
    inner: ServiceInner<Store>,
}

impl<Store: Storage> Service<Store> {
    /// The model of the data this service currently holds.
    pub closed spec fn contents(&self) -> StoreView {
        self.inner.store.contents()
    }

    /// Wraps `store` as a service.
    pub fn new(store: Store) -> (r: Self)
        ensures
            r.contents() == store.contents(),
    {
        Service { inner: ServiceInner { store } }
    }

    /// Executes one request against the service's backend and returns the
    /// response.
    pub fn execute(&mut self, cmd: CommandRequest) -> (r: CommandResponse)
        ensures
            final(self).contents() == dispatch_next_store(cmd, old(self).contents()),
            dispatch_resp_ok(cmd, old(self).contents(), r@),
    {
        dispatch(cmd, &mut self.inner.store)
    }
}

} // verus!
