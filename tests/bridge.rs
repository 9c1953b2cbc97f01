use rpc_bridge::backend::{event_route, request_line, BackendState, CallStart, ChildInput, Route, WaitOutcome};
use rpc_bridge::envelope::{DebugInfo, JsonRpcRequest, JsonRpcResponse, INTERNAL_ERROR, PARSE_ERROR};
use rpc_bridge::framing::{trim_range, LineBuffer};
use rpc_bridge::pending::PendingTable;

struct Recorder {
    written: Vec<Vec<u8>>,
    fail: bool,
}

impl ChildInput for Recorder {
    fn write(&mut self, data: &[u8]) -> Result<(), String> {
        if self.fail {
            return Err("broken pipe".to_string());
        }
        self.written.push(data.to_vec());
        Ok(())
    }
}

fn recorder(fail: bool) -> Recorder {
    Recorder { written: Vec::new(), fail }
}

fn request(id: u64) -> JsonRpcRequest {
    JsonRpcRequest { jsonrpc: "2.0".to_string(), method: "ping".to_string(), params: None, id }
}

fn reply(id: Option<u64>, result: Option<serde_json::Value>) -> JsonRpcResponse {
    JsonRpcResponse { jsonrpc: "2.0".to_string(), result, error: None, id }
}

fn event_result(method: &str, params: Option<serde_json::Value>) -> serde_json::Value {
    let mut obj = serde_json::Map::new();
    obj.insert("method".to_string(), serde_json::Value::String(method.to_string()));
    if let Some(p) = params {
        obj.insert("params".to_string(), p);
    }
    serde_json::Value::Object(obj)
}

fn failure_of(r: &JsonRpcResponse) -> (i32, String, Option<u64>) {
    let e = r.error.as_ref().expect("an error response");
    assert!(r.result.is_none());
    assert_eq!(r.jsonrpc, "2.0");
    (e.code, e.message.clone(), r.id)
}

fn drain(buf: &mut LineBuffer) -> Vec<String> {
    let mut out = Vec::new();
    while let Some(m) = buf.next_message() {
        out.push(String::from_utf8(m).unwrap());
    }
    out
}

#[test]
fn frames_complete_lines_only() {
    let mut buf = LineBuffer::new();
    buf.push_chunk(b"{\"id\":1}\n{\"id\":");
    assert_eq!(drain(&mut buf), vec!["{\"id\":1}".to_string()]);
    buf.push_chunk(b"2}\n");
    assert_eq!(drain(&mut buf), vec!["{\"id\":2}".to_string()]);
    assert!(buf.next_line().is_none());
}

#[test]
fn blank_lines_are_separator_noise() {
    let mut buf = LineBuffer::new();
    buf.push_chunk(b"\n  \r\n\t\n  {\"a\":1}  \r\n\n");
    assert_eq!(drain(&mut buf), vec!["{\"a\":1}".to_string()]);
    assert!(buf.next_message().is_none());
}

#[test]
fn next_line_keeps_blank_lines_but_trims() {
    let mut buf = LineBuffer::new();
    buf.push_chunk(b"  \n x y \nrest");
    assert_eq!(buf.next_line(), Some(Vec::new()));
    assert_eq!(buf.next_line(), Some(b"x y".to_vec()));
    assert_eq!(buf.next_line(), None);
    buf.push_chunk(b"\n");
    assert_eq!(buf.next_line(), Some(b"rest".to_vec()));
}

#[test]
fn malformed_line_does_not_disturb_following_lines() {
    let mut buf = LineBuffer::new();
    buf.push_chunk(b"not json at all\n{\"id\":3}\n{broken");
    assert_eq!(drain(&mut buf), vec!["not json at all".to_string(), "{\"id\":3}".to_string()]);
    buf.push_chunk(b"\n{\"id\":4}\n");
    assert_eq!(drain(&mut buf), vec!["{broken".to_string(), "{\"id\":4}".to_string()]);
}

#[test]
fn trim_range_strips_both_ends() {
    let s = b"xx \t ab c \r\n yy".to_vec();
    assert_eq!(trim_range(&s, 2, 13), b"ab c".to_vec());
    assert_eq!(trim_range(&s, 2, 5), Vec::<u8>::new());
    assert_eq!(trim_range(&s, 0, 0), Vec::<u8>::new());
}

#[test]
fn request_line_adds_one_terminator() {
    assert_eq!(request_line(b"{}"), b"{}\n".to_vec());
    assert_eq!(request_line(b"{}\n"), b"{}\n".to_vec());
    assert_eq!(request_line(b""), b"\n".to_vec());
}

#[test]
fn request_line_collapses_trailing_terminators() {
    assert_eq!(request_line(b"{}\n\n"), b"{}\n".to_vec());
    assert_eq!(request_line(b"{}\n\n\n"), b"{}\n".to_vec());
    assert_eq!(request_line(b"\n\n"), b"\n".to_vec());
    assert_eq!(request_line(b"a\nb"), b"a\nb\n".to_vec());
}

#[test]
fn pending_table_resolves_once() {
    let mut t: PendingTable<&str> = PendingTable::new();
    assert_eq!(t.register(7, "first"), None);
    assert_eq!(t.register(7, "second"), Some("first"));
    assert!(t.contains(7));
    assert_eq!(t.resolve(7), Some("second"));
    assert_eq!(t.resolve(7), None);
    assert_eq!(t.len(), 0);
}

#[test]
fn pending_table_expire_reports_presence() {
    let mut t: PendingTable<u8> = PendingTable::new();
    t.register(1, 10);
    assert!(t.expire(1));
    assert!(!t.expire(1));
    assert_eq!(t.resolve(1), None);
}

#[test]
fn rejects_when_backend_not_running() {
    let mut st: BackendState<Recorder, u8> = BackendState::new();
    match st.begin_call(b"{}", Ok(request(1)), 0) {
        CallStart::Finished(r) => {
            assert_eq!(failure_of(&r), (INTERNAL_ERROR, "Backend not running".to_string(), None))
        }
        CallStart::Waiting(_) => panic!("no backend runs"),
    }
    assert_eq!(st.pending_count(), 0);
}

#[test]
fn rejection_carries_recorded_backend_error() {
    let mut st: BackendState<Recorder, u8> = BackendState::new();
    st.set_error("Failed to spawn backend: missing".to_string());
    assert_eq!(st.get_error(), Some("Failed to spawn backend: missing".to_string()));
    match st.begin_call(b"nonsense", Err("bad".to_string()), 0) {
        CallStart::Finished(r) => assert_eq!(
            failure_of(&r),
            (INTERNAL_ERROR, "Failed to spawn backend: missing".to_string(), None)
        ),
        CallStart::Waiting(_) => panic!("no backend runs"),
    }
}

#[test]
fn parse_error_does_not_contact_backend() {
    let mut st: BackendState<Recorder, u8> = BackendState::new();
    st.set_child(recorder(false));
    assert!(st.is_running());
    match st.begin_call(b"{oops", Err("expected value".to_string()), 0) {
        CallStart::Finished(r) => assert_eq!(
            failure_of(&r),
            (PARSE_ERROR, "Parse error: expected value".to_string(), None)
        ),
        CallStart::Waiting(_) => panic!("payload does not decode"),
    }
    assert_eq!(st.pending_count(), 0);
    match st.begin_call(b"{}", Ok(request(5)), 1) {
        CallStart::Waiting(id) => assert_eq!(id, 5),
        CallStart::Finished(_) => panic!("write succeeds"),
    }
}

#[test]
fn dispatched_call_writes_framed_request() {
    let mut st: BackendState<Recorder, u8> = BackendState::new();
    st.set_child(recorder(false));
    let raw = b"{\"jsonrpc\":\"2.0\",\"method\":\"ping\",\"id\":9}";
    match st.begin_call(raw, Ok(request(9)), 42) {
        CallStart::Waiting(id) => assert_eq!(id, 9),
        CallStart::Finished(_) => panic!("write succeeds"),
    }
    assert_eq!(st.pending_count(), 1);
    match st.route(reply(Some(9), Some(serde_json::Value::Bool(true)))) {
        Route::Deliver(w, m) => {
            assert_eq!(w, 42);
            assert_eq!(m.id, Some(9));
            assert_eq!(m.result, Some(serde_json::Value::Bool(true)));
        }
        _ => panic!("the waiter of 9 gets the reply"),
    }
    assert_eq!(st.pending_count(), 0);
    assert!(matches!(st.route(reply(Some(9), None)), Route::Discard));
}

#[test]
fn failed_write_unregisters_and_reports() {
    let mut st: BackendState<Recorder, u8> = BackendState::new();
    st.set_child(recorder(true));
    match st.begin_call(b"{}", Ok(request(3)), 0) {
        CallStart::Finished(r) => assert_eq!(
            failure_of(&r),
            (INTERNAL_ERROR, "Failed to write to backend: broken pipe".to_string(), Some(3))
        ),
        CallStart::Waiting(_) => panic!("write fails"),
    }
    assert_eq!(st.pending_count(), 0);
}

#[test]
fn write_without_backend_fails() {
    let mut st: BackendState<Recorder, u8> = BackendState::new();
    assert_eq!(st.write(b"x"), Err("Backend not running".to_string()));
}

#[test]
fn timeout_then_late_reply_is_dropped() {
    let mut st: BackendState<Recorder, u8> = BackendState::new();
    st.set_child(recorder(false));
    assert!(matches!(st.begin_call(b"{}", Ok(request(11)), 1), CallStart::Waiting(11)));
    let r = st.finish_call(11, WaitOutcome::TimedOut);
    assert_eq!(failure_of(&r), (INTERNAL_ERROR, "Request timeout".to_string(), Some(11)));
    assert_eq!(st.pending_count(), 0);
    assert!(matches!(st.route(reply(Some(11), None)), Route::Discard));
}

#[test]
fn closed_waiter_gives_cancellation() {
    let mut st: BackendState<Recorder, u8> = BackendState::new();
    let r = st.finish_call(4, WaitOutcome::Closed);
    assert_eq!(failure_of(&r), (INTERNAL_ERROR, "Request cancelled".to_string(), Some(4)));
    let d = st.finish_call(4, WaitOutcome::Delivered(reply(Some(4), Some(serde_json::Value::Null))));
    assert_eq!(d.id, Some(4));
    assert!(d.error.is_none());
}

#[test]
fn replies_out_of_order_reach_their_callers() {
    let mut st: BackendState<Recorder, &str> = BackendState::new();
    st.set_child(recorder(false));
    assert!(matches!(st.begin_call(b"{}", Ok(request(1)), "first"), CallStart::Waiting(1)));
    assert!(matches!(st.begin_call(b"{}", Ok(request(2)), "second"), CallStart::Waiting(2)));
    match st.route(reply(Some(2), None)) {
        Route::Deliver(w, _) => assert_eq!(w, "second"),
        _ => panic!("reply 2 goes to the second caller"),
    }
    match st.route(reply(Some(1), None)) {
        Route::Deliver(w, _) => assert_eq!(w, "first"),
        _ => panic!("reply 1 goes to the first caller"),
    }
}

#[test]
fn unsolicited_message_becomes_one_event() {
    let mut st: BackendState<Recorder, u8> = BackendState::new();
    let params = serde_json::Value::String("p".to_string());
    match st.route(reply(None, Some(event_result("progress", Some(params.clone()))))) {
        Route::Event(method, p) => {
            assert_eq!(method, "progress");
            assert_eq!(p, Some(params));
        }
        _ => panic!("an event"),
    }
    assert_eq!(st.pending_count(), 0);
    match st.route(reply(None, Some(event_result("done", None)))) {
        Route::Event(method, p) => {
            assert_eq!(method, "done");
            assert_eq!(p, None);
        }
        _ => panic!("an event"),
    }
}

#[test]
fn message_without_id_or_method_is_discarded() {
    let mut st: BackendState<Recorder, u8> = BackendState::new();
    assert!(matches!(st.route(reply(None, None)), Route::Discard));
    assert!(matches!(st.route(reply(None, Some(serde_json::Value::Bool(false)))), Route::Discard));
    let mut obj = serde_json::Map::new();
    obj.insert("method".to_string(), serde_json::Value::Bool(true));
    assert!(matches!(st.route(reply(None, Some(serde_json::Value::Object(obj)))), Route::Discard));
}

#[test]
fn ids_count_up_from_zero() {
    let mut st: BackendState<Recorder, u8> = BackendState::new();
    assert_eq!(st.next_id(), 0);
    assert_eq!(st.next_id(), 1);
    assert_eq!(st.next_id(), 2);
}

#[test]
fn debug_info_marks_packaged_builds() {
    let d = DebugInfo::new(false, "r".to_string(), "a".to_string(), "u".to_string(), None, true);
    assert!(d.is_packaged);
    assert!(!d.is_dev);
    assert!(d.backend_running);
    assert_eq!(d.resources_path, "r");
}

#[test]
fn failure_response_has_no_result() {
    let r = JsonRpcResponse::failure(PARSE_ERROR, "m".to_string(), Some(2));
    assert_eq!(failure_of(&r), (PARSE_ERROR, "m".to_string(), Some(2)));
    assert_eq!(PARSE_ERROR, -32700);
    assert_eq!(INTERNAL_ERROR, -32603);
}

#[test]
fn spawn_failure_is_reported_to_callers() {
    let mut st: BackendState<Recorder, u8> = BackendState::new();
    st.record_spawn_failure("no such file");
    assert_eq!(st.get_error(), Some("Failed to spawn backend: no such file".to_string()));
    assert!(!st.is_running());
    match st.begin_call(b"{}", Ok(request(1)), 0) {
        CallStart::Finished(r) => assert_eq!(
            failure_of(&r),
            (INTERNAL_ERROR, "Failed to spawn backend: no such file".to_string(), None)
        ),
        CallStart::Waiting(_) => panic!("no backend runs"),
    }
}

#[test]
fn event_route_needs_a_method() {
    match event_route::<u8>(Some("tick".to_string()), Some(serde_json::Value::Null)) {
        Route::Event(m, p) => {
            assert_eq!(m, "tick");
            assert_eq!(p, Some(serde_json::Value::Null));
        }
        _ => panic!("an event"),
    }
    assert!(matches!(event_route::<u8>(None, Some(serde_json::Value::Null)), Route::Discard));
}

#[test]
fn default_state_has_no_backend() {
    let st: BackendState<Recorder, u8> = BackendState::default();
    assert!(!st.is_running());
    assert_eq!(st.get_error(), None);
    assert_eq!(st.pending_count(), 0);
}

#[test]
fn undecodable_line_is_skipped_and_next_one_routes() {
    let mut st: BackendState<Recorder, u8> = BackendState::new();
    st.set_child(recorder(false));
    assert!(matches!(st.begin_call(b"{}", Ok(request(6)), 8), CallStart::Waiting(6)));
    let mut buf = LineBuffer::new();
    buf.push_chunk(b"garbage\n{\"id\":6}\n");
    let first = buf.next_message().unwrap();
    assert_eq!(first, b"garbage".to_vec());
    assert!(matches!(st.route_decoded(Err("expected value".to_string())), Route::Discard));
    assert_eq!(st.pending_count(), 1);
    assert_eq!(buf.next_message().unwrap(), b"{\"id\":6}".to_vec());
    match st.route_decoded(Ok(reply(Some(6), None))) {
        Route::Deliver(w, m) => {
            assert_eq!(w, 8);
            assert_eq!(m.id, Some(6));
        }
        _ => panic!("the waiter of 6 gets the reply"),
    }
    assert_eq!(st.pending_count(), 0);
}

#[test]
fn event_with_non_string_method_is_discarded_by_route_decoded() {
    let mut st: BackendState<Recorder, u8> = BackendState::new();
    let mut obj = serde_json::Map::new();
    obj.insert("method".to_string(), serde_json::Value::from(3));
    let r = st.route_decoded(Ok(reply(None, Some(serde_json::Value::Object(obj)))));
    assert!(matches!(r, Route::Discard));
}
