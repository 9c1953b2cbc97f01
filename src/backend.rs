//! The bridge's shared state, and the decisions taken for each call of the
//! gateway and for each message that the backend writes.
use crate::envelope::{is_failure, prefixed, JsonRpcRequest, JsonRpcResponse, INTERNAL_ERROR, PARSE_ERROR};
use crate::framing::NEWLINE;
use crate::pending::{waiter_of, PendingTable};
use vstd::prelude::*;
use vstd::string::StringExecFns;

verus! {

/// The write side of the backend's input stream, as the host's process
/// facility provides it.
pub trait ChildInput {
    /// Writes `data` to the backend; an error describes the I/O failure.
    fn write(&mut self, data: &[u8]) -> Result<(), String>;
}

/// The member `key` of a JSON value, when it is an object that has one.
pub uninterp spec fn member_of(v: serde_json::Value, key: Seq<char>) -> Option<serde_json::Value>;

/// The text of a JSON value, when it is a string.
pub uninterp spec fn text_of(v: serde_json::Value) -> Option<Seq<char>>;

/// The method that a result names: the text of its `method` member.
pub open spec fn method_text(v: serde_json::Value) -> Option<Seq<char>> {
    match member_of(v, "method"@) {
        Some(m) => text_of(m),
        None => None,
    }
}

/// Relies on serde_json's `Value::get` with a `str` index: the member `key`
/// of an object, cloned; `None` for a value that is no object or lacks it.
#[verifier::external_body]
fn value_get(v: &serde_json::Value, key: &str) -> (r: Option<serde_json::Value>)
    ensures
        r == member_of(*v, key@),
{
    v.get(key).cloned()
}

/// Relies on serde_json's `Value::as_str`: the text of a JSON string, `None`
/// for any other value.
#[verifier::external_body]
fn value_as_str(v: &serde_json::Value) -> (r: Option<String>)
    ensures
        match r {
            Some(t) => text_of(*v) == Some(t@),
            None => text_of(*v) is None,
        },
{
    v.as_str().map(|s| s.to_string())
}

/// The message of a rejection while no backend runs.
pub open spec fn unavailable_message(last_error: Option<Seq<char>>) -> Seq<char> {
    match last_error {
        Some(e) => e,
        None => "Backend not running"@,
    }
}

/// A message that reports a failed write to the backend.
pub open spec fn is_write_failure(m: Seq<char>) -> bool {
    exists|e: Seq<char>| m == "Failed to write to backend: "@ + e
}

/// `raw` without the line terminators that it ends with.
pub open spec fn without_trailing_newlines(raw: Seq<u8>) -> Seq<u8>
    decreases raw.len(),
{
    if raw.len() > 0 && raw.last() == NEWLINE {
        without_trailing_newlines(raw.drop_last())
    } else {
        raw
    }
}

/// `raw` ending in exactly one line terminator: those it ended with are
/// replaced by one.
pub open spec fn framed(raw: Seq<u8>) -> Seq<u8> {
    without_trailing_newlines(raw).push(NEWLINE)
}

/// How a call stands after its request was handled.
pub enum CallStart {
    /// The call is over, with this response.
    Finished(JsonRpcResponse),
    /// The request was sent; its caller waits for this identifier.
    Waiting(u64),
}

/// What came of the wait for a response.
pub enum WaitOutcome {
    Delivered(JsonRpcResponse),
    /// The waiter was torn down without a delivery.
    Closed,
    /// The fixed window elapsed first.
    TimedOut,
}

/// Where a message from the backend goes.
pub enum Route<W> {
    /// To the waiter of its identifier.
    Deliver(W, JsonRpcResponse),
    /// To the event sink: a method name and its parameters.
    Event(String, Option<serde_json::Value>),
    /// Nowhere.
    Discard,
}

/// The route of a message without identifier whose result names `method`
/// (the text of its `method` member, when that is a JSON string) with
/// `params`: an event when there is a method, nowhere otherwise.
pub fn event_route<W>(method: Option<String>, params: Option<serde_json::Value>) -> (r: Route<W>)
    ensures
        match method {
            Some(m) => r == Route::<W>::Event(m, params),
            None => r is Discard,
        },
{
    match method {
        Some(m) => Route::Event(m, params),
        None => Route::Discard,
    }
}

/// The line that carries `raw` to the backend.
pub fn request_line(raw: &[u8]) -> (r: Vec<u8>)
    ensures
        r@ == framed(raw@),
{
    let mut end: usize = raw.len();
    assert(raw@.subrange(0, end as int) =~= raw@);
    while end > 0 && raw[end - 1] == NEWLINE
        invariant
            end <= raw@.len(),
            without_trailing_newlines(raw@) == without_trailing_newlines(raw@.subrange(0, end as int)),
        decreases end,
    {
        assert(raw@.subrange(0, end as int).drop_last() =~= raw@.subrange(0, end - 1));
        end = end - 1;
    }
    assert(without_trailing_newlines(raw@) == raw@.subrange(0, end as int));
    let mut r: Vec<u8> = Vec::new();
    let mut i: usize = 0;
    while i < end
        invariant
            i <= end <= raw@.len(),
            r@ == raw@.subrange(0, i as int),
        decreases end - i,
    {
        r.push(raw[i]);
        assert(r@ =~= raw@.subrange(0, i + 1));
        i = i + 1;
    }
    r.push(NEWLINE);
    r
}

/// What routing `msg` does, from state `pre` to state `post`, giving `r`.
pub open spec fn routed<C: ChildInput, W>(
    pre: BackendState<C, W>,
    post: BackendState<C, W>,
    msg: JsonRpcResponse,
    r: Route<W>,
) -> bool {
    &&& post.same_but_pending(&pre)
    &&& match msg.id {
        Some(i) => {
            &&& post.pending_map() == pre.pending_map().remove(i)
            &&& match r {
                Route::Deliver(w, m) => waiter_of(pre.pending_map(), i) == Some(w) && m == msg,
                Route::Discard => !pre.pending_map().contains_key(i),
                Route::Event(..) => false,
            }
        },
        None => {
            &&& post.pending_map() == pre.pending_map()
            &&& match msg.result {
                Some(v) => match method_text(v) {
                    Some(t) => (r matches Route::Event(m, p) && m@ == t && p == member_of(
                        v,
                        "params"@,
                    )),
                    None => r is Discard,
                },
                None => r is Discard,
            }
        },
    }
}

/// The state that the gateway calls and the dispatch of backend output share:
/// the backend's input stream while it runs, the table of waiting callers, the
/// identifier counter and the last recorded backend failure.
pub struct BackendState<C, W> {
    child: Option<C>,
    pending: PendingTable<W>,
    request_id: u64,
    backend_error: Option<String>,
}

impl<C: ChildInput, W> BackendState<C, W> {
    pub closed spec fn child_of(&self) -> Option<C> {
        self.child
    }

    pub open spec fn running(&self) -> bool {
        self.child_of() is Some
    }

    pub closed spec fn pending_map(&self) -> Map<u64, W> {
        self.pending@
    }

    pub closed spec fn counter(&self) -> u64 {
        self.request_id
    }

    pub closed spec fn last_error(&self) -> Option<Seq<char>> {
        match self.backend_error {
            Some(e) => Some(e@),
            None => None,
        }
    }

    /// Everything but the table of waiting callers is as in `o`.
    pub open spec fn same_but_pending(&self, o: &Self) -> bool {
        &&& self.child_of() == o.child_of()
        &&& self.counter() == o.counter()
        &&& self.last_error() == o.last_error()
    }

    pub fn new() -> (r: Self)
        ensures
            !r.running(),
            r.pending_map() == Map::<u64, W>::empty(),
            r.counter() == 0,
            r.last_error() is None,
    {
        BackendState { child: None, pending: PendingTable::new(), request_id: 0, backend_error: None }
    }

    /// Hands out the next identifier; the counter wraps past `u64::MAX`.
    pub fn next_id(&mut self) -> (r: u64)
        ensures
            r == old(self).counter(),
            final(self).counter() == (if r == u64::MAX { 0 } else { (r + 1) as u64 }),
            final(self).child_of() == old(self).child_of(),
            final(self).pending_map() == old(self).pending_map(),
            final(self).last_error() == old(self).last_error(),
    {
        let r = self.request_id;
        self.request_id = if r == u64::MAX { 0 } else { r + 1 };
        r
    }

    /// Installs the input stream of a freshly spawned backend. A failure
    /// recorded before stays recorded.
    pub fn set_child(&mut self, child: C)
        ensures
            final(self).child_of() == Some(child),
            final(self).pending_map() == old(self).pending_map(),
            final(self).counter() == old(self).counter(),
            final(self).last_error() == old(self).last_error(),
    {
        self.child = Some(child);
    }

    /// Records a spawn or runtime failure of the backend.
    pub fn set_error(&mut self, error: String)
        ensures
            final(self).last_error() == Some(error@),
            final(self).child_of() == old(self).child_of(),
            final(self).pending_map() == old(self).pending_map(),
            final(self).counter() == old(self).counter(),
    {
        self.backend_error = Some(error);
    }

    /// Records that spawning the backend failed, with the spawner's
    /// description of why.
    pub fn record_spawn_failure(&mut self, detail: &str)
        ensures
            final(self).last_error() == Some("Failed to spawn backend: "@ + detail@),
            final(self).child_of() == old(self).child_of(),
            final(self).pending_map() == old(self).pending_map(),
            final(self).counter() == old(self).counter(),
    {
        let m = prefixed("Failed to spawn backend: ", detail);
        self.set_error(m);
    }

    pub fn get_error(&self) -> (r: Option<String>)
        ensures
            match r {
                Some(e) => self.last_error() == Some(e@),
                None => self.last_error() is None,
            },
    {
        match &self.backend_error {
            Some(e) => Some(e.clone()),
            None => None,
        }
    }

    pub fn is_running(&self) -> (r: bool)
        ensures
            r == self.running(),
    {
        self.child.is_some()
    }

    /// Writes `data` to the backend's input stream.
    pub fn write(&mut self, data: &[u8]) -> (r: Result<(), String>)
        ensures
            final(self).running() == old(self).running(),
            final(self).pending_map() == old(self).pending_map(),
            final(self).counter() == old(self).counter(),
            final(self).last_error() == old(self).last_error(),
            !old(self).running() ==> final(self).child_of() == old(self).child_of(),
            !old(self).running() ==> (r matches Err(m) && m@ == "Backend not running"@),
            old(self).running() ==> (r matches Err(m) ==> is_write_failure(m@)),
    {
        match &mut self.child {
            Some(child) => {
                match child.write(data) {
                    Ok(()) => Ok(()),
                    Err(e) => {
                        let m = prefixed("Failed to write to backend: ", e.as_str());
                        assert(m@ == "Failed to write to backend: "@ + e@);
                        Err(m)
                    },
                }
            },
            None => Err(String::from_str("Backend not running")),
        }
    }

    /// Registers a waiter for `id`; a waiter already under `id` is handed back.
    pub fn add_pending(&mut self, id: u64, waiter: W) -> (r: Option<W>)
        ensures
            final(self).pending_map() == old(self).pending_map().insert(id, waiter),
            r == waiter_of(old(self).pending_map(), id),
            final(self).same_but_pending(old(self)),
    {
        self.pending.register(id, waiter)
    }

    /// Takes out the waiter of `id`, to deliver a response to it.
    pub fn resolve_pending(&mut self, id: u64) -> (r: Option<W>)
        ensures
            final(self).pending_map() == old(self).pending_map().remove(id),
            r == waiter_of(old(self).pending_map(), id),
            final(self).same_but_pending(old(self)),
    {
        self.pending.resolve(id)
    }

    /// Drops the waiter of `id`; tells whether there was one.
    pub fn expire_pending(&mut self, id: u64) -> (r: bool)
        ensures
            final(self).pending_map() == old(self).pending_map().remove(id),
            r == old(self).pending_map().contains_key(id),
            final(self).same_but_pending(old(self)),
    {
        self.pending.expire(id)
    }

    pub fn pending_count(&self) -> (r: usize)
        ensures
            r == self.pending_map().len(),
    {
        self.pending.len()
    }
    /// Handles a caller's request up to the wait for its response. `raw` is the
    /// payload as the caller sent it; `parsed` is its decoding as a request, or
    /// a description of why it does not decode. Rejects the call while no
    /// backend runs, then a payload that does not decode; otherwise registers
    /// `waiter` under the request's identifier and writes the framed payload.
    /// A failed write takes the registration back.
    pub fn begin_call(&mut self, raw: &[u8], parsed: Result<JsonRpcRequest, String>, waiter: W) -> (r:
        CallStart)
        ensures
            !old(self).running() ==> {
                &&& r matches CallStart::Finished(resp) && is_failure(
                    resp,
                    INTERNAL_ERROR,
                    unavailable_message(old(self).last_error()),
                    None,
                )
                &&& final(self).pending_map() == old(self).pending_map()
                &&& final(self).same_but_pending(old(self))
            },
            old(self).running() && parsed is Err ==> {
                &&& r matches CallStart::Finished(resp) && is_failure(
                    resp,
                    PARSE_ERROR,
                    "Parse error: "@ + parsed->Err_0@,
                    None,
                )
                &&& final(self).pending_map() == old(self).pending_map()
                &&& final(self).same_but_pending(old(self))
            },
            old(self).running() && parsed is Ok ==> {
                let id = parsed->Ok_0.id;
                &&& final(self).running()
                &&& final(self).counter() == old(self).counter()
                &&& final(self).last_error() == old(self).last_error()
                &&& match r {
                    CallStart::Waiting(w) => w == id && final(self).pending_map() == old(
                        self,
                    ).pending_map().insert(id, waiter),
                    CallStart::Finished(resp) => {
                        &&& final(self).pending_map() == old(self).pending_map().remove(id)
                        &&& resp.error matches Some(e) && is_failure(
                            resp,
                            INTERNAL_ERROR,
                            e.message@,
                            Some(id),
                        ) && is_write_failure(e.message@)
                    },
                }
            },
    {
        if !self.is_running() {
            let message = match self.get_error() {
                Some(e) => e,
                None => String::from_str("Backend not running"),
            };
            return CallStart::Finished(JsonRpcResponse::failure(INTERNAL_ERROR, message, None));
        }
        let request = match parsed {
            Ok(q) => q,
            Err(e) => {
                let message = prefixed("Parse error: ", e.as_str());
                return CallStart::Finished(JsonRpcResponse::failure(PARSE_ERROR, message, None));
            },
        };
        let id = request.id;
        let _displaced = self.add_pending(id, waiter);
        let line = request_line(raw);
        match self.write(line.as_slice()) {
            Ok(()) => CallStart::Waiting(id),
            Err(e) => {
                let _ = self.expire_pending(id);
                proof {
                    assert(old(self).pending_map().insert(id, waiter).remove(id) =~= old(
                        self,
                    ).pending_map().remove(id));
                }
                CallStart::Finished(JsonRpcResponse::failure(INTERNAL_ERROR, e, Some(id)))
            },
        }
    }

    /// Ends a call that waited for identifier `id`: a delivered response is
    /// returned as it is; a closed waiter gives a cancellation error; an
    /// elapsed window drops the registration and gives a timeout error.
    pub fn finish_call(&mut self, id: u64, outcome: WaitOutcome) -> (r: JsonRpcResponse)
        ensures
            final(self).same_but_pending(old(self)),
            match outcome {
                WaitOutcome::Delivered(d) => r == d && final(self).pending_map() == old(
                    self,
                ).pending_map(),
                WaitOutcome::Closed => is_failure(r, INTERNAL_ERROR, "Request cancelled"@, Some(id))
                    && final(self).pending_map() == old(self).pending_map(),
                WaitOutcome::TimedOut => is_failure(r, INTERNAL_ERROR, "Request timeout"@, Some(id))
                    && final(self).pending_map() == old(self).pending_map().remove(id),
            },
    {
        match outcome {
            WaitOutcome::Delivered(d) => d,
            WaitOutcome::Closed => JsonRpcResponse::failure(
                INTERNAL_ERROR,
                String::from_str("Request cancelled"),
                Some(id),
            ),
            WaitOutcome::TimedOut => {
                let _ = self.expire_pending(id);
                JsonRpcResponse::failure(INTERNAL_ERROR, String::from_str("Request timeout"), Some(id))
            },
        }
    }

    /// Routes one decoded message from the backend. One with an identifier
    /// goes to the waiter registered under it, which leaves the table, or is
    /// dropped when no one waits; one without goes to the event sink when its
    /// result names a method, and is dropped otherwise.
    pub fn route(&mut self, msg: JsonRpcResponse) -> (r: Route<W>)
        ensures
            routed(*old(self), *final(self), msg, r),
    {
        match msg.id {
            Some(i) => match self.resolve_pending(i) {
                Some(w) => Route::Deliver(w, msg),
                None => Route::Discard,
            },
            None => match &msg.result {
                Some(result) => {
                    let method = match value_get(result, "method") {
                        Some(m) => value_as_str(&m),
                        None => None,
                    };
                    match method {
                        Some(_) => event_route(method, value_get(result, "params")),
                        None => event_route(None, None),
                    }
                },
                None => Route::Discard,
            },
        }
    }

    /// Routes one framed line from the backend as it decoded: a line that did
    /// not decode is skipped, with nothing changed, and does not stop the
    /// lines after it.
    pub fn route_decoded(&mut self, decoded: Result<JsonRpcResponse, String>) -> (r: Route<W>)
        ensures
            match decoded {
                Ok(msg) => routed(*old(self), *final(self), msg, r),
                Err(_) => r is Discard && final(self).same_but_pending(old(self))
                    && final(self).pending_map() == old(self).pending_map(),
            },
    {
        match decoded {
            Ok(msg) => self.route(msg),
            Err(_) => Route::Discard,
        }
    }
}

impl<C: ChildInput, W> Default for BackendState<C, W> {
    fn default() -> (r: Self)
        ensures
            !r.running(),
            r.pending_map() == Map::<u64, W>::empty(),
            r.counter() == 0,
            r.last_error() is None,
    {
        Self::new()
    }
}

} // verus!
