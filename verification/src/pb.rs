//! Request, response and value types of the key-value service.
//!
//! A `Value` is the tagged union stored under each key; `Value::Empty` is the
//! zero value and doubles as the "no previous value" sentinel. A
//! `CommandRequest` carries at most one active command variant; a
//! `CommandResponse` carries a status code that mirrors HTTP semantics, a
//! message, an ordered list of values and an unordered list of pairs.

use vstd::prelude::*;
use vstd::string::StringExecFns;

use crate::errors::{error_message, error_status, KvError};

verus! {

/// Status code of a successful response.
pub const STATUS_OK: u32 = 200;

/// Status code of a malformed request.
pub const STATUS_BAD_REQUEST: u32 = 400;

/// Status code of a lookup that found nothing.
pub const STATUS_NOT_FOUND: u32 = 404;

/// Status code of an internal failure.
pub const STATUS_INTERNAL: u32 = 500;

/// A stored value: string, 64-bit integer, double-precision float, boolean,
/// or the empty sentinel. The float is carried as its IEEE 754 bit pattern,
/// so the core never computes on it; callers that hold an `f64` convert with
/// `f64::to_bits` / `f64::from_bits` at the boundary.
#[derive(Debug, PartialEq, PartialOrd)]
pub enum Value {
    Str(String),
    Int(i64),
    FloatBits(u64),
    Bool(bool),
    Empty,
}

/// The mathematical shape of a `Value`: strings become character sequences.
pub enum ValueView {
    Str(Seq<char>),
    Int(i64),
    FloatBits(u64),
    Bool(bool),
    Empty,
}

impl Default for Value {
    /// The zero value: the empty sentinel.
    fn default() -> (r: Self)
        ensures
            r == Value::Empty,
    {
        Value::Empty
    }
}

impl Clone for Value {
    /// A cloned value equals the original.
    fn clone(&self) -> (r: Self)
        ensures
            r == *self,
    {
        match self {
            Value::Str(s) => Value::Str(s.clone()),
            Value::Int(i) => Value::Int(*i),
            Value::FloatBits(b) => Value::FloatBits(*b),
            Value::Bool(b) => Value::Bool(*b),
            Value::Empty => Value::Empty,
        }
    }
}

impl View for Value {
    type V = ValueView;

    open spec fn view(&self) -> ValueView {
        match self {
            Value::Str(s) => ValueView::Str(s@),
            Value::Int(i) => ValueView::Int(*i),
            Value::FloatBits(b) => ValueView::FloatBits(*b),
            Value::Bool(b) => ValueView::Bool(*b),
            Value::Empty => ValueView::Empty,
        }
    }
}

impl DeepView for Value {
    type V = ValueView;

    open spec fn deep_view(&self) -> ValueView {
        self.view()
    }
}

/// A key together with its value. Keys are unique within a table.
#[derive(Debug, PartialEq, PartialOrd)]
pub struct KvPair {
    pub key: String,
    pub value: Value,
}

impl KvPair {
    /// Builds the pair (`key`, `value`).
    pub fn new(key: String, value: Value) -> (r: Self)
        ensures
            r == (KvPair { key, value }),
    {
        KvPair { key, value }
    }
}

impl Clone for KvPair {
    /// A cloned pair equals the original.
    fn clone(&self) -> (r: Self)
        ensures
            r == *self,
    {
        KvPair { key: self.key.clone(), value: self.value.clone() }
    }
}

impl View for KvPair {
    type V = (Seq<char>, ValueView);

    open spec fn view(&self) -> (Seq<char>, ValueView) {
        (self.key@, self.value@)
    }
}

impl DeepView for KvPair {
    type V = (Seq<char>, ValueView);

    open spec fn deep_view(&self) -> (Seq<char>, ValueView) {
        self.view()
    }
}

/// A request to write `pair` into `table`.
#[derive(Debug, Clone, PartialEq)]
pub struct Hset {
    pub table: String,
    pub pair: Option<KvPair>,
}

/// A request to read `key` of `table`.
#[derive(Debug, Clone, PartialEq)]
pub struct Hget {
    pub table: String,
    pub key: String,
}

/// A request for all live pairs of `table`.
#[derive(Debug, Clone, PartialEq)]
pub struct Hgetall {
    pub table: String,
}

/// A request to read `keys` of `table`, in order.
#[derive(Debug, Clone, PartialEq)]
pub struct Hmget {
    pub table: String,
    pub keys: Vec<String>,
}

/// A request to write `pairs` into `table`, in order.
#[derive(Debug, Clone, PartialEq)]
pub struct Hmset {
    pub table: String,
    pub pairs: Vec<KvPair>,
}

/// A request to remove `key` from `table`.
#[derive(Debug, Clone, PartialEq)]
pub struct Hdel {
    pub table: String,
    pub key: String,
}

/// A request to remove `keys` from `table`, in order.
#[derive(Debug, Clone, PartialEq)]
pub struct Hmdel {
    pub table: String,
    pub keys: Vec<String>,
}

/// A request for whether `table` holds `key`.
#[derive(Debug, Clone, PartialEq)]
pub struct Hexist {
    pub table: String,
    pub key: String,
}

/// A request for which of `keys` the `table` holds, in order.
#[derive(Debug, Clone, PartialEq)]
pub struct Hmexist {
    pub table: String,
    pub keys: Vec<String>,
}

/// The closed set of command variants.
#[derive(Debug, Clone, PartialEq)]
pub enum RequestData {
    Hset(Hset),
    Hget(Hget),
    Hgetall(Hgetall),
    Hmget(Hmget),
    Hmset(Hmset),
    Hdel(Hdel),
    Hmdel(Hmdel),
    Hexist(Hexist),
    Hmexist(Hmexist),
}

/// A decoded request: exactly one active command variant, or none when the
/// request was malformed or empty.
#[derive(Debug, Clone, PartialEq)]
pub struct CommandRequest {
    pub request_data: Option<RequestData>,
}

impl CommandRequest {
    /// Builds the request that writes `value` under `key` of `table`.
    pub fn new_hset(table: String, key: String, value: Value) -> (r: Self)
        ensures
            r == (CommandRequest {
                request_data: Some(
                    RequestData::Hset(Hset { table, pair: Some(KvPair { key, value }) }),
                ),
            }),
    {
        CommandRequest {
            request_data: Some(
                RequestData::Hset(Hset { table, pair: Some(KvPair::new(key, value)) }),
            ),
        }
    }

    /// Builds the request that reads `key` of `table`.
    pub fn new_hget(table: String, key: String) -> (r: Self)
        ensures
            r == (CommandRequest { request_data: Some(RequestData::Hget(Hget { table, key })) }),
    {
        CommandRequest { request_data: Some(RequestData::Hget(Hget { table, key })) }
    }

    /// Builds the request that reads all live pairs of `table`.
    pub fn new_hgetall(table: String) -> (r: Self)
        ensures
            r == (CommandRequest { request_data: Some(RequestData::Hgetall(Hgetall { table })) }),
    {
        CommandRequest { request_data: Some(RequestData::Hgetall(Hgetall { table })) }
    }

    /// Builds the request that reads `keys` of `table`, in order.
    pub fn new_hmget(table: String, keys: Vec<String>) -> (r: Self)
        ensures
            r == (CommandRequest {
                request_data: Some(RequestData::Hmget(Hmget { table, keys })),
            }),
    {
        CommandRequest { request_data: Some(RequestData::Hmget(Hmget { table, keys })) }
    }

    /// Builds the request that writes `pairs` into `table`, in order.
    pub fn new_hmset(table: String, pairs: Vec<KvPair>) -> (r: Self)
        ensures
            r == (CommandRequest {
                request_data: Some(RequestData::Hmset(Hmset { table, pairs })),
            }),
    {
        CommandRequest { request_data: Some(RequestData::Hmset(Hmset { table, pairs })) }
    }

    /// Builds the request that removes `key` from `table`.
    pub fn new_hdel(table: String, key: String) -> (r: Self)
        ensures
            r == (CommandRequest { request_data: Some(RequestData::Hdel(Hdel { table, key })) }),
    {
        CommandRequest { request_data: Some(RequestData::Hdel(Hdel { table, key })) }
    }

    /// Builds the request that removes `keys` from `table`, in order.
    pub fn new_hmdel(table: String, keys: Vec<String>) -> (r: Self)
        ensures
            r == (CommandRequest {
                request_data: Some(RequestData::Hmdel(Hmdel { table, keys })),
            }),
    {
        CommandRequest { request_data: Some(RequestData::Hmdel(Hmdel { table, keys })) }
    }

    /// Builds the request that asks whether `table` holds `key`.
    pub fn new_hexist(table: String, key: String) -> (r: Self)
        ensures
            r == (CommandRequest {
                request_data: Some(RequestData::Hexist(Hexist { table, key })),
            }),
    {
        CommandRequest { request_data: Some(RequestData::Hexist(Hexist { table, key })) }
    }

    /// Builds the request that asks which of `keys` the `table` holds.
    pub fn new_hmexist(table: String, keys: Vec<String>) -> (r: Self)
        ensures
            r == (CommandRequest {
                request_data: Some(RequestData::Hmexist(Hmexist { table, keys })),
            }),
    {
        CommandRequest { request_data: Some(RequestData::Hmexist(Hmexist { table, keys })) }
    }
}

/// The response to a command: a status code that mirrors HTTP semantics, a
/// message (empty on success), an ordered list of values and an unordered
/// list of pairs.
#[derive(Debug, Clone, PartialEq)]
pub struct CommandResponse {
    pub status: u32,
    pub message: String,
    pub values: Vec<Value>,
    pub pairs: Vec<KvPair>,
}

/// The mathematical shape of a response.
#[verifier::ext_equal]
pub struct RespView {
    pub status: u32,
    pub message: Seq<char>,
    pub values: Seq<ValueView>,
    pub pairs: Seq<(Seq<char>, ValueView)>,
}

impl View for CommandResponse {
    type V = RespView;

    open spec fn view(&self) -> RespView {
        RespView {
            status: self.status,
            message: self.message@,
            values: self.values.deep_view(),
            pairs: self.pairs.deep_view(),
        }
    }
}

/// The successful response that carries `values` and no pairs.
pub open spec fn resp_ok_values(values: Seq<ValueView>) -> RespView {
    RespView { status: STATUS_OK, message: Seq::empty(), values, pairs: Seq::empty() }
}

/// The successful response that carries `pairs` and no values.
pub open spec fn resp_ok_pairs(pairs: Seq<(Seq<char>, ValueView)>) -> RespView {
    RespView { status: STATUS_OK, message: Seq::empty(), values: Seq::empty(), pairs }
}

/// The response to a request that carries no active variant: status 400
/// with the malformed-request description `d`.
pub open spec fn resp_invalid(d: Seq<char>) -> RespView {
    RespView {
        status: STATUS_BAD_REQUEST,
        message: "Invalid command: "@ + d,
        values: Seq::empty(),
        pairs: Seq::empty(),
    }
}

/// The response an error converts to: its status code, its description as
/// the message, and neither values nor pairs.
pub open spec fn resp_error(e: KvError) -> RespView {
    RespView {
        status: error_status(e),
        message: error_message(e),
        values: Seq::empty(),
        pairs: Seq::empty(),
    }
}

impl CommandResponse {
    /// Builds the successful response that carries the single value `v`.
    pub fn ok_single(v: Value) -> (r: Self)
        ensures
            r@ == resp_ok_values(seq![v@]),
    {
        let values = vec![v];
        let r = CommandResponse {
            status: STATUS_OK,
            message: String::new(),
            values,
            pairs: Vec::new(),
        };
        proof {
            assert(r@ =~= resp_ok_values(seq![v@]));
        }
        r
    }

    /// Builds the successful response that carries `values`, in their order.
    pub fn ok_values(values: Vec<Value>) -> (r: Self)
        ensures
            r@ == resp_ok_values(values.deep_view()),
    {
        let ghost vv = values.deep_view();
        let r = CommandResponse {
            status: STATUS_OK,
            message: String::new(),
            values,
            pairs: Vec::new(),
        };
        proof {
            assert(r@ =~= resp_ok_values(vv));
        }
        r
    }

    /// Builds the successful response that carries `pairs`.
    pub fn ok_pairs(pairs: Vec<KvPair>) -> (r: Self)
        ensures
            r@ == resp_ok_pairs(pairs.deep_view()),
    {
        let ghost pv = pairs.deep_view();
        let r = CommandResponse {
            status: STATUS_OK,
            message: String::new(),
            values: Vec::new(),
            pairs,
        };
        proof {
            assert(r@ =~= resp_ok_pairs(pv));
        }
        r
    }

    /// Builds the response an error converts to: 404 for a missing key, 400
    /// for a malformed request, 500 for everything else, with the error's
    /// description as the message.
    pub fn from_error(e: KvError) -> (r: Self)
        ensures
            r@ == resp_error(e),
    {
        let status = e.status();
        let message = e.message();
        let r = CommandResponse { status, message, values: Vec::new(), pairs: Vec::new() };
        proof {
            assert(r@ =~= resp_error(e));
        }
        r
    }
}

impl From<String> for Value {
    /// Wraps a string as a value.
    fn from(s: String) -> Self {
        Value::Str(s)
    }
}

impl vstd::std_specs::convert::FromSpecImpl<String> for Value {
    open spec fn obeys_from_spec() -> bool {
        true
    }

    open spec fn from_spec(s: String) -> Self {
        Value::Str(s)
    }
}

impl From<&str> for Value {
    /// Wraps a borrowed string as a value. What `from` returns is pinned
    /// only up to its view, which spec equality on `String` cannot express,
    /// so nothing is claimed of it in contracts.
    fn from(s: &str) -> Self {
        Value::Str(s.to_owned())
    }
}

impl vstd::std_specs::convert::FromSpecImpl<&str> for Value {
    open spec fn obeys_from_spec() -> bool {
        false
    }

    open spec fn from_spec(s: &str) -> Self {
        Value::Empty
    }
}

impl From<i64> for Value {
    /// Wraps an integer as a value.
    fn from(i: i64) -> Self {
        Value::Int(i)
    }
}

impl vstd::std_specs::convert::FromSpecImpl<i64> for Value {
    open spec fn obeys_from_spec() -> bool {
        true
    }

    open spec fn from_spec(i: i64) -> Self {
        Value::Int(i)
    }
}

impl From<bool> for Value {
    /// Wraps a boolean as a value.
    fn from(b: bool) -> Self {
        Value::Bool(b)
    }
}

impl vstd::std_specs::convert::FromSpecImpl<bool> for Value {
    open spec fn obeys_from_spec() -> bool {
        true
    }

    open spec fn from_spec(b: bool) -> Self {
        Value::Bool(b)
    }
}

impl From<Value> for CommandResponse {
    /// The successful response carrying one value; the exact result is
    /// stated on `CommandResponse::ok_single`, which this forwards to.
    fn from(v: Value) -> Self {
        CommandResponse::ok_single(v)
    }
}

impl vstd::std_specs::convert::FromSpecImpl<Value> for CommandResponse {
    open spec fn obeys_from_spec() -> bool {
        false
    }

    open spec fn from_spec(v: Value) -> Self {
        arbitrary()
    }
}

impl From<Vec<Value>> for CommandResponse {
    /// The successful response carrying a list of values; the exact result
    /// is stated on `CommandResponse::ok_values`, which this forwards to.
    fn from(values: Vec<Value>) -> Self {
        CommandResponse::ok_values(values)
    }
}

impl vstd::std_specs::convert::FromSpecImpl<Vec<Value>> for CommandResponse {
    open spec fn obeys_from_spec() -> bool {
        false
    }

    open spec fn from_spec(values: Vec<Value>) -> Self {
        arbitrary()
    }
}

impl From<Vec<KvPair>> for CommandResponse {
    /// The successful response carrying a list of pairs; the exact result is
    /// stated on `CommandResponse::ok_pairs`, which this forwards to.
    fn from(pairs: Vec<KvPair>) -> Self {
        CommandResponse::ok_pairs(pairs)
    }
}

impl vstd::std_specs::convert::FromSpecImpl<Vec<KvPair>> for CommandResponse {
    open spec fn obeys_from_spec() -> bool {
        false
    }

    open spec fn from_spec(pairs: Vec<KvPair>) -> Self {
        arbitrary()
    }
}

impl From<KvError> for CommandResponse {
    /// The response an error converts to; the exact result is stated on
    /// `CommandResponse::from_error`, which this forwards to.
    fn from(e: KvError) -> Self {
        CommandResponse::from_error(e)
    }
}

impl vstd::std_specs::convert::FromSpecImpl<KvError> for CommandResponse {
    open spec fn obeys_from_spec() -> bool {
        false
    }

    open spec fn from_spec(e: KvError) -> Self {
        arbitrary()
    }
}

/// The quoted form of one key in a key listing.
pub open spec fn quoted_key(k: Seq<char>) -> Seq<char> {
    "\""@ + k + "\""@
}

/// The comma-separated listing of `keys`, each quoted, without brackets.
pub open spec fn rendered_keys(keys: Seq<Seq<char>>) -> Seq<char>
    decreases keys.len(),
{
    if keys.len() == 0 {
        Seq::empty()
    } else if keys.len() == 1 {
        quoted_key(keys[0])
    } else {
        rendered_keys(keys.drop_last()) + ", "@ + quoted_key(keys.last())
    }
}

/// The bracketed listing of `keys`: each key quoted, the keys separated by
/// commas, the whole in square brackets.
pub open spec fn keys_listing(keys: Seq<Seq<char>>) -> Seq<char> {
    "["@ + rendered_keys(keys) + "]"@
}

/// A bracketed, quoted rendering of a list of keys, for use in messages.
/// Keys are rendered verbatim: no characters inside them are escaped.
#[derive(Debug)]
pub struct StringWrapper(pub String);

/// Renders `keys` as a bracketed, quoted listing.
fn render_keys(keys: &Vec<String>) -> (r: String)
    ensures
        r@ == keys_listing(keys.deep_view()),
{
    let ghost kv = keys.deep_view();
    let mut out = String::from_str("[");
    let mut i: usize = 0;
    while i < keys.len()
        invariant
            i <= keys.len(),
            keys.deep_view() == kv,
            kv.len() == keys.len(),
            out@ == "["@ + rendered_keys(kv.take(i as int)),
        decreases keys.len() - i,
    {
        if i > 0 {
            out.append(", ");
        }
        out.append("\"");
        out.append(keys[i].as_str());
        out.append("\"");
        proof {
            let t = kv.take(i as int + 1);
            assert(t.drop_last() =~= kv.take(i as int));
            assert(t.last() == kv[i as int]);
            if i == 0 {
                assert(kv.take(0int) =~= Seq::<Seq<char>>::empty());
                assert(out@ =~= "["@ + rendered_keys(t));
            } else {
                assert(out@ =~= "["@ + rendered_keys(t));
            }
        }
        i = i + 1;
    }
    out.append("]");
    proof {
        assert(kv.take(keys.len() as int) =~= kv);
        assert(out@ =~= keys_listing(kv));
    }
    out
}

impl From<Vec<String>> for StringWrapper {
    /// The rendered listing of the keys; the exact result is stated on the
    /// rendering this forwards to.
    fn from(sw: Vec<String>) -> Self {
        StringWrapper(render_keys(&sw))
    }
}

impl vstd::std_specs::convert::FromSpecImpl<Vec<String>> for StringWrapper {
    open spec fn obeys_from_spec() -> bool {
        false
    }

    open spec fn from_spec(sw: Vec<String>) -> Self {
        arbitrary()
    }
}

} // verus!
