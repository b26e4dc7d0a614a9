use deno_isolate::isolate::{Dispatched, Isolate, LoopAction, Response};
use deno_isolate::registry::Registry;
use deno_isolate::state::{Buf, IsolateState, OpError};

// An operation of these tests is resolved from the start: it holds its outcome.
type Op = Result<Buf, OpError>;

fn dispatch_sync(_isolate: &mut Isolate<()>, control: &[u8], data: &mut [u8]) -> (bool, Op) {
    assert_eq!(control[0], 4);
    assert_eq!(control[1], 5);
    assert_eq!(control[2], 6);
    assert_eq!(data.len(), 0);
    // Send back some sync response.
    let vec: Vec<u8> = vec![1, 2, 3];
    (true, Ok(vec))
}

#[test]
fn test_dispatch_sync() {
    let argv = vec![String::from("./deno"), String::from("hello.js")];
    let mut state = IsolateState::new(argv);
    let mut registry: Registry<()> = Registry::new();
    let ptr = registry.insert(());

    // What the engine does while it runs "y.js": the script sends [4, 5, 6]
    // and looks at what the call returns.
    let m: Vec<u8> = vec![4, 5, 6];
    let mut no_data: Vec<u8> = Vec::new();
    let isolate = Isolate::from_void_ptr(&mut registry, ptr).expect("live isolate");
    let (is_sync, op) = dispatch_sync(isolate, &m, &mut no_data);
    let n = match isolate.pre_dispatch(0, is_sync, op) {
        Dispatched::Sync { req_id, op } => isolate.respond_sync(req_id, op),
        Dispatched::Async { .. } => panic!("the request is synchronous"),
    };
    let n = n.expect("a synchronous reply");
    assert!(n.buf.len() == 3 && n.buf[0] == 1 && n.buf[1] == 2 && n.buf[2] == 3);
    assert_eq!(n.req_id, 0);
    assert_eq!(n.user_data, ptr);

    isolate.execute(1, || String::new()).expect("execute error");
    assert_eq!(isolate.event_loop(&mut state, 0), LoopAction::Idle);
    assert_eq!(state.len(), 0);
    assert_eq!(state.argv().len(), 2);
    assert_eq!(state.argv()[0], "./deno");
    assert_eq!(state.argv()[1], "hello.js");
}

#[test]
fn sync_dispatch_leaves_counter_and_channel() {
    let mut state = IsolateState::new(Vec::new());
    let mut isolate: Isolate<()> = Isolate::new((), 5);
    isolate.ntasks_increment();
    state.send_to_js(40, vec![8]);
    let next = isolate.pre_dispatch(41, true, 17u8);
    assert_eq!(next, Dispatched::Sync { req_id: 41, op: 17u8 });
    assert_eq!(isolate.ntasks(), 1);
    assert_eq!(isolate.timeout_due(), None);
    let response = isolate.respond_sync(41, Ok(vec![1, 2, 3]));
    assert_eq!(response, Some(Response { user_data: 5, req_id: 41, buf: vec![1, 2, 3] }));
    assert_eq!(isolate.ntasks(), 1);
    assert_eq!(state.len(), 1);
}

#[test]
fn async_dispatch_counts_before_spawning() {
    let mut isolate: Isolate<()> = Isolate::new((), 0);
    assert_eq!(isolate.ntasks(), 0);
    let next = isolate.pre_dispatch(7, false, "op");
    assert_eq!(next, Dispatched::Async { req_id: 7, op: "op" });
    assert_eq!(isolate.ntasks(), 1);
    assert!(!isolate.is_idle());
    let next = isolate.pre_dispatch(8, false, "op2");
    assert_eq!(next, Dispatched::Async { req_id: 8, op: "op2" });
    assert_eq!(isolate.ntasks(), 2);
}

#[test]
fn sync_reply_with_empty_buffer_is_not_sent() {
    let isolate: Isolate<()> = Isolate::new((), 1);
    assert_eq!(isolate.respond_sync(3, Ok(Vec::new())), None);
}

#[test]
fn sync_reply_with_one_byte_is_sent() {
    let isolate: Isolate<()> = Isolate::new((), 1);
    assert_eq!(
        isolate.respond_sync(3, Ok(vec![0])),
        Some(Response { user_data: 1, req_id: 3, buf: vec![0] })
    );
}

#[test]
fn sync_failure_is_always_reported() {
    let isolate: Isolate<()> = Isolate::new((), 9);
    assert_eq!(
        isolate.respond_sync(3, Err(OpError { payload: vec![0xee, 1] })),
        Some(Response { user_data: 9, req_id: 3, buf: vec![0xee, 1] })
    );
    assert_eq!(
        isolate.respond_sync(4, Err(OpError { payload: Vec::new() })),
        Some(Response { user_data: 9, req_id: 4, buf: Vec::new() })
    );
}

#[test]
fn respond_carries_token_id_and_payload() {
    let isolate: Isolate<()> = Isolate::new((), 77);
    assert_eq!(
        isolate.respond(-5, vec![9, 8]),
        Response { user_data: 77, req_id: -5, buf: vec![9, 8] }
    );
    assert_eq!(isolate.respond(0, Vec::new()), Response { user_data: 77, req_id: 0, buf: Vec::new() });
}

#[test]
fn execute_maps_the_engine_status() {
    let isolate: Isolate<()> = Isolate::new((), 0);
    assert_eq!(isolate.execute(1, || String::from("unused")), Ok(()));
    assert_eq!(isolate.execute(-1, || String::from("unused")), Ok(()));
    assert_eq!(
        isolate.execute(0, || String::from("Error: assert error")),
        Err(String::from("Error: assert error"))
    );
}

#[test]
fn execute_fetches_the_exception_only_on_failure() {
    let isolate: Isolate<()> = Isolate::new((), 0);
    let fetched = std::cell::Cell::new(0);
    let r = isolate.execute(1, || {
        fetched.set(fetched.get() + 1);
        String::new()
    });
    assert_eq!(r, Ok(()));
    assert_eq!(fetched.get(), 0);
    let r = isolate.execute(0, || {
        fetched.set(fetched.get() + 1);
        String::from("boom")
    });
    assert_eq!(r, Err(String::from("boom")));
    assert_eq!(fetched.get(), 1);
}
