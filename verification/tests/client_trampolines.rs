use std::cell::RefCell;

use cef_bridge::refcounted::{BaseRefCounted, Heap};
use cef_bridge::urlrequest::{
    AuthCallback, AuthCallbackHeap, AuthCallbackVtable, AuthDecision, URLRequest,
    URLRequestClient, URLRequestClientWrapper, UrlRequestClientHeap, UrlRequestClientVtable,
};

#[derive(Default)]
struct LoggingClient {
    log: RefCell<Vec<String>>,
    accept_auth: bool,
}

impl URLRequestClient for LoggingClient {
    fn on_request_complete(&self, request: &URLRequest) {
        self.log.borrow_mut().push(format!("complete:{}", request.0));
    }

    fn on_upload_progress(&self, _request: &URLRequest, current: i64, total: i64) {
        self.log.borrow_mut().push(format!("up:{}/{}", current, total));
    }

    fn on_download_progress(&self, _request: &URLRequest, current: i64, total: i64) {
        self.log.borrow_mut().push(format!("down:{}/{}", current, total));
    }

    fn on_download_data(&self, _request: &URLRequest, data: &[u8]) {
        self.log.borrow_mut().push(format!("data:{}", data.len()));
    }

    fn get_auth_credentials(
        &self,
        is_proxy: bool,
        host: &str,
        port: u16,
        realm: &str,
        scheme: &str,
        callback: AuthCallback,
    ) -> bool {
        self.log.borrow_mut().push(format!(
            "auth:{}:{}:{}:{}:{}:{}",
            is_proxy, host, port, realm, scheme, callback.0
        ));
        self.accept_auth
    }
}

fn wrapped(heap: &mut UrlRequestClientHeap<LoggingClient>, accept_auth: bool) -> usize {
    let client = LoggingClient { accept_auth, ..LoggingClient::default() };
    URLRequestClientWrapper::wrap(client, heap).ptr
}

#[test]
fn client_trampolines_convert_and_dispatch() {
    let mut heap: UrlRequestClientHeap<LoggingClient> = Heap::empty();
    let p = wrapped(&mut heap, false);

    URLRequestClientWrapper::request_complete(&mut heap, p, 21);
    URLRequestClientWrapper::upload_progress(&mut heap, p, 21, 10, 100);
    URLRequestClientWrapper::download_progress(&mut heap, p, 21, 7, -1);
    URLRequestClientWrapper::download_data(&mut heap, p, 21, &[1, 2, 3]);

    let log = heap.borrow(p).object.log.borrow().clone();
    assert_eq!(log, vec!["complete:21", "up:10/100", "down:7/-1", "data:3"]);
    assert!(heap.has_one_ref(p));
}

#[test]
fn auth_trampoline_takes_a_unit_and_reports_the_answer_as_an_integer() {
    let mut heap: UrlRequestClientHeap<LoggingClient> = Heap::empty();
    let yes = wrapped(&mut heap, true);
    let no = wrapped(&mut heap, false);

    let mut auth_heap: AuthCallbackHeap = Heap::empty();
    let vtable = AuthCallbackVtable { base: BaseRefCounted::zeroed(), cont: true, cancel: true };
    let cb = auth_heap.wrap(vtable, AuthDecision::Pending, std::mem::size_of::<AuthCallbackVtable>());

    let r = URLRequestClientWrapper::get_auth_credentials(
        &mut heap, &mut auth_heap, yes, 1, "proxy.test", 8080, "realm", "basic", cb.ptr,
    );
    assert_eq!(r, 1);
    // The delegate now owns one unit of the callback's count on top of
    // the wrap's initial one.
    assert!(!auth_heap.has_one_ref(cb.ptr));
    AuthCallback(cb.ptr).cont(&mut auth_heap, "user", "secret");
    assert!(auth_heap.has_one_ref(cb.ptr));

    let r = URLRequestClientWrapper::get_auth_credentials(
        &mut heap, &mut auth_heap, no, 0, "site.test", 443, "r", "digest", cb.ptr,
    );
    assert_eq!(r, 0);
    assert!(!auth_heap.has_one_ref(cb.ptr));
    AuthCallback(cb.ptr).drop(&mut auth_heap);
    assert!(auth_heap.has_one_ref(cb.ptr));

    let expected = format!("auth:true:proxy.test:8080:realm:basic:{}", cb.ptr);
    let log = heap.borrow(yes).object.log.borrow().clone();
    assert_eq!(log, vec![expected]);
    let expected = format!("auth:false:site.test:443:r:digest:{}", cb.ptr);
    let log = heap.borrow(no).object.log.borrow().clone();
    assert_eq!(log, vec![expected]);
}

#[test]
fn wrapping_installs_every_client_slot() {
    let mut heap: UrlRequestClientHeap<LoggingClient> = Heap::empty();
    let p = wrapped(&mut heap, false);
    let rc = heap.borrow(p);
    let vtable = &rc.cefobj;
    assert_eq!(vtable.base.size, std::mem::size_of::<UrlRequestClientVtable>());
    assert!(vtable.base.add_ref);
    assert!(vtable.base.release);
    assert!(vtable.base.has_one_ref);
    assert!(vtable.base.has_at_least_one_ref);
    assert!(vtable.on_request_complete);
    assert!(vtable.on_upload_progress);
    assert!(vtable.on_download_progress);
    assert!(vtable.on_download_data);
    assert!(vtable.get_auth_credentials);
}
