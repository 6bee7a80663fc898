use cef_bridge::objects::{ProcessId, Request};
use cef_bridge::refcounted::{BaseRefCounted, Heap};
use cef_bridge::urlrequest::{
    AuthCallback, AuthCallbackHeap, AuthCallbackVtable, AuthDecision, ResponseFilterStatus,
    URLRequest, URLRequestClient, URLRequestStatus, UrlRequestClientHeap, UrlRequestHeap,
    ERR_ABORTED,
};

struct QuietClient;

impl URLRequestClient for QuietClient {
}

#[test]
fn status_codes_round_trip() {
    let all = [
        URLRequestStatus::Unknown,
        URLRequestStatus::Success,
        URLRequestStatus::IOPending,
        URLRequestStatus::Canceled,
        URLRequestStatus::Failed,
    ];
    for status in all {
        assert_eq!(URLRequestStatus::from_code(status.code()), Some(status));
    }
    assert_eq!(URLRequestStatus::from_code(5), None);
    assert_eq!(URLRequestStatus::from_code(-1), None);
    assert_eq!(URLRequestStatus::Canceled.code(), 3);
}

#[test]
fn process_codes_round_trip() {
    assert_eq!(ProcessId::from_code(0), Some(ProcessId::Browser));
    assert_eq!(ProcessId::from_code(1), Some(ProcessId::Renderer));
    assert_eq!(ProcessId::from_code(2), None);
}

#[test]
fn filter_status_codes_round_trip() {
    assert_eq!(ResponseFilterStatus::NeedMoreData.code(), 0);
    assert_eq!(ResponseFilterStatus::Done.code(), 1);
    assert_eq!(ResponseFilterStatus::Error.code(), 2);
    assert_eq!(ResponseFilterStatus::from_code(1), Some(ResponseFilterStatus::Done));
    assert_eq!(ResponseFilterStatus::from_code(3), None);
}

#[test]
fn a_fresh_request_reports_nothing_yet() {
    let mut heap: UrlRequestHeap = Heap::empty();
    let mut clients: UrlRequestClientHeap<QuietClient> = Heap::empty();
    let req = URLRequest::new(&mut heap, &mut clients, &Request { ptr: 11 }, QuietClient, None);

    assert_eq!(req.get_request_status(&heap), URLRequestStatus::Unknown);
    assert_eq!(req.get_request_error(&heap).code, 0);
    assert_eq!(req.get_response(&heap), None);
    assert!(!req.response_was_cached(&heap));
    assert_eq!(req.get_request(&heap).ptr, 11);

    // The wrapped client is recorded under a non-null pointer and holds
    // its initial unit of reference count.
    let client_ptr = req.get_client(&heap);
    assert_ne!(client_ptr, 0);
    assert!(clients.has_one_ref(client_ptr));
}

#[test]
fn cancel_marks_the_request_aborted() {
    let mut heap: UrlRequestHeap = Heap::empty();
    let mut clients: UrlRequestClientHeap<QuietClient> = Heap::empty();
    let req = URLRequest::new(&mut heap, &mut clients, &Request { ptr: 11 }, QuietClient, None);

    req.cancel(&mut heap);
    assert_eq!(req.get_request_status(&heap), URLRequestStatus::Canceled);
    assert_eq!(req.get_request_error(&heap).code, ERR_ABORTED);
}

#[test]
fn rewrapping_and_dropping_request_handles_balances_the_count() {
    let mut heap: UrlRequestHeap = Heap::empty();
    let mut clients: UrlRequestClientHeap<QuietClient> = Heap::empty();
    let req = URLRequest::new(&mut heap, &mut clients, &Request { ptr: 11 }, QuietClient, None);

    let alias = URLRequest::from(&mut heap, req.0);
    assert!(!heap.has_one_ref(req.0));
    alias.drop(&mut heap);
    assert!(heap.has_one_ref(req.0));
}

fn fresh_auth(heap: &mut AuthCallbackHeap, cont: bool, cancel: bool) -> AuthCallback {
    let vtable = AuthCallbackVtable { base: BaseRefCounted::zeroed(), cont, cancel };
    let h = heap.wrap(vtable, AuthDecision::Pending, std::mem::size_of::<AuthCallbackVtable>());
    AuthCallback(h.ptr)
}

#[test]
fn continuing_records_the_credentials_and_releases_the_handle() {
    let mut heap: AuthCallbackHeap = Heap::empty();
    let cb = fresh_auth(&mut heap, true, true);
    let keeper = AuthCallback::from(&mut heap, cb.0);
    let p = keeper.0;

    cb.cont(&mut heap, "user", "secret");
    assert_eq!(
        heap.borrow(p).object,
        AuthDecision::Continued { username: String::from("user"), password: String::from("secret") },
    );
    assert!(heap.has_one_ref(p));
    keeper.drop(&mut heap);
}

#[test]
fn canceling_records_the_decision() {
    let mut heap: AuthCallbackHeap = Heap::empty();
    let cb = fresh_auth(&mut heap, true, true);
    let keeper = AuthCallback::from(&mut heap, cb.0);
    let p = keeper.0;

    cb.cancel(&mut heap);
    assert_eq!(heap.borrow(p).object, AuthDecision::Canceled);
    keeper.drop(&mut heap);
}

#[test]
fn absent_slots_leave_the_decision_untouched() {
    let mut heap: AuthCallbackHeap = Heap::empty();
    let cb = fresh_auth(&mut heap, false, false);
    let keeper = AuthCallback::from(&mut heap, cb.0);
    let p = keeper.0;

    cb.cont(&mut heap, "user", "secret");
    assert_eq!(heap.borrow(p).object, AuthDecision::Pending);

    let again = AuthCallback::from(&mut heap, p);
    again.cancel(&mut heap);
    assert_eq!(heap.borrow(p).object, AuthDecision::Pending);
    keeper.drop(&mut heap);
}
