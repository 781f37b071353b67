use gateway_resolver::bridge::Completion;
use gateway_resolver::bridge::CompletionBridge;
use gateway_resolver::failure::FailureKind;
use gateway_resolver::fetch::FetchResult;

fn hello() -> FetchResult {
    FetchResult::success(b"hello".to_vec(), Some(&b"text/plain"[..]))
}

fn refused() -> FetchResult {
    FetchResult::transport_failure("connection refused", "ConnectionRefused")
}

#[test]
fn completion_of_a_success_is_the_finish_call() {
    match Completion::of(hello()) {
        Completion::Finish { body, length, content_type } => {
            assert_eq!(body, b"hello");
            assert_eq!(length, 5);
            assert_eq!(content_type.as_deref(), Some("text/plain"));
        }
        Completion::FinishError { .. } => panic!("the fetch succeeded"),
    }
}

#[test]
fn completion_of_a_failure_is_the_error_call() {
    match Completion::of(refused()) {
        Completion::FinishError { failure } => {
            assert_eq!(failure.kind, FailureKind::Transport);
            assert_eq!(failure.detail, "connection refused: ConnectionRefused");
        }
        Completion::Finish { .. } => panic!("the fetch failed"),
    }
}

#[test]
fn is_finish_tells_the_two_calls_apart() {
    assert!(Completion::of(hello()).is_finish());
    assert!(!Completion::of(refused()).is_finish());
}

#[test]
fn a_new_bridge_is_empty() {
    let bridge: CompletionBridge<&str> = CompletionBridge::new();
    assert_eq!(bridge.pending_count(), 0);
}

#[test]
fn tokens_are_numbered_in_the_order_of_entry() {
    let mut bridge = CompletionBridge::new();
    let first = bridge.enter("first").unwrap();
    let second = bridge.enter("second").unwrap();
    let third = bridge.enter("third").unwrap();
    assert_eq!(first.id(), 0);
    assert_eq!(second.id(), 1);
    assert_eq!(third.id(), 2);
    assert_eq!(bridge.pending_count(), 3);
}

#[test]
fn complete_hands_back_the_handle_and_the_call() {
    let mut bridge = CompletionBridge::new();
    let token = bridge.enter("request").unwrap();
    assert_eq!(bridge.pending_count(), 1);
    let (handle, call) = bridge.complete(token, hello()).unwrap();
    assert_eq!(handle, "request");
    match call {
        Completion::Finish { body, length, content_type } => {
            assert_eq!(body, b"hello");
            assert_eq!(length, 5);
            assert_eq!(content_type.as_deref(), Some("text/plain"));
        }
        Completion::FinishError { .. } => panic!("the fetch succeeded"),
    }
    assert_eq!(bridge.pending_count(), 0);
}

#[test]
fn complete_with_a_failure_is_the_error_call() {
    let mut bridge = CompletionBridge::new();
    let token = bridge.enter(17u32).unwrap();
    let (handle, call) = bridge.complete(token, refused()).unwrap();
    assert_eq!(handle, 17);
    match call {
        Completion::FinishError { failure } => {
            assert_eq!(failure.kind, FailureKind::Transport);
            assert!(!failure.detail.is_empty());
        }
        Completion::Finish { .. } => panic!("the fetch failed"),
    }
    assert_eq!(bridge.pending_count(), 0);
}

#[test]
fn requests_complete_in_any_order() {
    let mut bridge = CompletionBridge::new();
    let a = bridge.enter('a').unwrap();
    let b = bridge.enter('b').unwrap();
    let c = bridge.enter('c').unwrap();
    let d = bridge.enter('d').unwrap();
    let (handle, call) = bridge.complete(c, hello()).unwrap();
    assert_eq!(handle, 'c');
    assert!(call.is_finish());
    assert_eq!(bridge.pending_count(), 3);
    let (handle, call) = bridge.complete(a, refused()).unwrap();
    assert_eq!(handle, 'a');
    assert!(!call.is_finish());
    let (handle, _) = bridge.complete(d, hello()).unwrap();
    assert_eq!(handle, 'd');
    let (handle, _) = bridge.complete(b, hello()).unwrap();
    assert_eq!(handle, 'b');
    assert_eq!(bridge.pending_count(), 0);
}

#[test]
fn every_request_is_completed_by_one_call() {
    let mut bridge = CompletionBridge::new();
    let mut tokens = Vec::new();
    for handle in 0..50u64 {
        tokens.push(bridge.enter(handle).unwrap());
    }
    let mut calls = vec![0u32; 50];
    let mut turn = 0;
    while let Some(token) = if turn % 2 == 0 { tokens.pop() } else if tokens.is_empty() { None } else { Some(tokens.remove(0)) } {
        let id = token.id();
        let result = if turn % 3 == 0 { refused() } else { hello() };
        let finish = turn % 3 != 0;
        let (handle, call) = bridge.complete(token, result).unwrap();
        assert_eq!(handle, id);
        assert_eq!(call.is_finish(), finish);
        calls[handle as usize] += 1;
        turn += 1;
    }
    assert!(calls.iter().all(|&count| count == 1));
    assert_eq!(bridge.pending_count(), 0);
}

#[test]
fn a_token_of_another_bridge_completes_nothing() {
    let mut here = CompletionBridge::new();
    let mut there = CompletionBridge::new();
    let _first = there.enter("there 0").unwrap();
    let second = there.enter("there 1").unwrap();
    let _only = here.enter("here 0").unwrap();
    assert!(here.complete(second, hello()).is_none());
    assert_eq!(here.pending_count(), 1);
    assert_eq!(there.pending_count(), 2);
}

#[test]
fn a_completed_number_completes_nothing_again() {
    let mut bridge = CompletionBridge::new();
    let mut twin = CompletionBridge::new();
    let token = bridge.enter("request").unwrap();
    let same_number = twin.enter("twin").unwrap();
    assert_eq!(token.id(), same_number.id());
    assert!(bridge.complete(token, hello()).is_some());
    assert!(bridge.complete(same_number, hello()).is_none());
    assert_eq!(bridge.pending_count(), 0);
}

#[test]
fn numbers_are_not_used_again() {
    let mut bridge = CompletionBridge::new();
    let first = bridge.enter(()).unwrap();
    assert_eq!(first.id(), 0);
    bridge.complete(first, hello()).unwrap();
    let second = bridge.enter(()).unwrap();
    assert_eq!(second.id(), 1);
}

#[test]
fn a_dropped_token_leaves_its_request_in_flight() {
    let mut bridge = CompletionBridge::new();
    let token = bridge.enter("leaked").unwrap();
    drop(token);
    assert_eq!(bridge.pending_count(), 1);
}

#[test]
fn a_bridge_numbers_from_where_it_is_told() {
    let mut bridge = CompletionBridge::numbered_from(40);
    let first = bridge.enter("a").unwrap();
    let second = bridge.enter("b").unwrap();
    assert_eq!(first.id(), 40);
    assert_eq!(second.id(), 41);
    let (handle, _) = bridge.complete(second, hello()).unwrap();
    assert_eq!(handle, "b");
    assert_eq!(bridge.pending_count(), 1);
}

#[test]
fn an_exhausted_bridge_hands_the_handle_back() {
    let mut bridge = CompletionBridge::numbered_from(u64::MAX - 1);
    let last = bridge.enter("last").unwrap();
    assert_eq!(last.id(), u64::MAX - 1);
    assert_eq!(bridge.enter("one too many").unwrap_err(), "one too many");
    assert_eq!(bridge.enter("and again").unwrap_err(), "and again");
    assert_eq!(bridge.pending_count(), 1);
    let (handle, call) = bridge.complete(last, refused()).unwrap();
    assert_eq!(handle, "last");
    assert!(!call.is_finish());
    assert_eq!(bridge.pending_count(), 0);
    assert!(bridge.enter("still none").is_err());
}
