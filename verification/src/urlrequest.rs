//! URL requests: the owning-handle protocol on foreign-origin objects,
//! the client capability trait and its wrap and trampolines.
//!
//! A request object originates on the foreign side; safe code receives its
//! raw pointer and drives the shared reference-count protocol through it —
//! taking a pointer in adds a unit of count, dropping the handle releases
//! one.  The state the getters read is modelled as the record the foreign
//! request object holds.

use vstd::prelude::*;

use crate::objects::{Browser, Callback, Cookie, Frame, Request, RequestContext};
use crate::refcounted::{lemma_wf_preserved, BaseRefCounted, Heap, RefCountedPtr, RefCounter};

verus! {

/// The error code a failed or canceled request reports when nothing more
/// specific is known: the request was aborted.
pub const ERR_ABORTED: i32 = -3;

/// A network error code; 0 is "no error".
#[derive(Clone, Copy, PartialEq, Eq, Structural, Debug)]
pub struct ErrorCode {
    pub code: i32,
}

impl ErrorCode {
    /// No error.
    pub fn none() -> (e: ErrorCode)
        ensures
            e.code == 0,
    {
        ErrorCode { code: 0 }
    }
}

/// The status of a request.
#[derive(Clone, Copy, PartialEq, Eq, Structural, Debug)]
pub enum URLRequestStatus {
    /// Unknown status.
    Unknown,
    /// Request succeeded.
    Success,
    /// An IO request is pending, and the caller will be informed when it
    /// is completed.
    IOPending,
    /// Request was canceled programatically.
    Canceled,
    /// Request failed for some reason.
    Failed,
}

impl URLRequestStatus {
    /// The integer the boundary uses for this status.
    pub open spec fn code_spec(self) -> i32 {
        match self {
            URLRequestStatus::Unknown => 0,
            URLRequestStatus::Success => 1,
            URLRequestStatus::IOPending => 2,
            URLRequestStatus::Canceled => 3,
            URLRequestStatus::Failed => 4,
        }
    }

    /// The status a boundary integer names, if it names one.
    pub open spec fn from_code_spec(code: i32) -> Option<URLRequestStatus> {
        if code == 0 {
            Option::Some(URLRequestStatus::Unknown)
        } else if code == 1 {
            Option::Some(URLRequestStatus::Success)
        } else if code == 2 {
            Option::Some(URLRequestStatus::IOPending)
        } else if code == 3 {
            Option::Some(URLRequestStatus::Canceled)
        } else if code == 4 {
            Option::Some(URLRequestStatus::Failed)
        } else {
            Option::None
        }
    }

    /// The integer the boundary uses for this status.
    pub fn code(self) -> (c: i32)
        ensures
            c == self.code_spec(),
    {
        match self {
            URLRequestStatus::Unknown => 0,
            URLRequestStatus::Success => 1,
            URLRequestStatus::IOPending => 2,
            URLRequestStatus::Canceled => 3,
            URLRequestStatus::Failed => 4,
        }
    }

    /// Read a status off the boundary; an integer that names no status
    /// yields nothing rather than a made-up status.
    pub fn from_code(code: i32) -> (r: Option<URLRequestStatus>)
        ensures
            r == URLRequestStatus::from_code_spec(code),
            r matches Option::Some(s) ==> s.code_spec() == code,
    {
        if code == 0 {
            Some(URLRequestStatus::Unknown)
        } else if code == 1 {
            Some(URLRequestStatus::Success)
        } else if code == 2 {
            Some(URLRequestStatus::IOPending)
        } else if code == 3 {
            Some(URLRequestStatus::Canceled)
        } else if code == 4 {
            Some(URLRequestStatus::Failed)
        } else {
            None
        }
    }
}

/// A web response originated by the foreign side.
#[derive(Clone, Copy, PartialEq, Eq, Structural, Debug)]
pub struct Response(pub usize);

/// A continuation callback for deferred request handling.
#[derive(Clone, Copy, PartialEq, Eq, Structural, Debug)]
pub struct RequestCallback(pub usize);

/// The record a request object holds, read by the getters.
pub struct UrlRequestState {
    pub request: usize,
    pub client: usize,
    pub status: URLRequestStatus,
    pub error_code: i32,
    pub response: usize,
    pub response_was_cached: bool,
}

/// The function table of a request object: the shared base record and the
/// optional cancel slot.
pub struct UrlRequestVtable {
    pub base: BaseRefCounted,
    pub cancel: bool,
}

impl RefCounter for UrlRequestVtable {
    open spec fn base(&self) -> BaseRefCounted {
        self.base
    }

    open spec fn with_base(&self, base: BaseRefCounted) -> UrlRequestVtable {
        UrlRequestVtable { base, ..*self }
    }

    fn set_base(&mut self, base: BaseRefCounted) {
        self.base = base;
    }
}

/// The heap of request objects.
pub type UrlRequestHeap = Heap<UrlRequestVtable, UrlRequestState>;

/// An owned handle on a request object; the wrapped raw pointer accounts
/// for one unit of the object's reference count.
#[derive(Clone, Copy, PartialEq, Eq, Structural, Debug)]
pub struct URLRequest(pub usize);

impl URLRequest {
    /// Create a request over `request`, wrapping `client` into a
    /// foreign-shaped container whose pointer the request records.  The
    /// returned handle owns the fresh request object's initial count.
    /// The request context only steers the foreign side and leaves the
    /// record untouched.
    #[allow(unused_variables)]
    pub fn new<D: URLRequestClient>(
        heap: &mut UrlRequestHeap,
        client_heap: &mut UrlRequestClientHeap<D>,
        request: &Request,
        client: D,
        request_context: Option<&RequestContext>,
    ) -> (r: URLRequest)
        requires
            old(heap).wf(),
            old(client_heap).wf(),
        ensures
            final(heap).wf(),
            final(client_heap).wf(),
            r.0 == old(heap).len(),
            final(heap).live(r.0 as int),
            final(heap).count(r.0 as int) == 1,
            final(heap).at(r.0 as int).object == (UrlRequestState {
                request: request.ptr,
                client: old(client_heap).len() as usize,
                status: URLRequestStatus::Unknown,
                error_code: 0,
                response: 0,
                response_was_cached: false,
            }),
            final(heap).at(r.0 as int).cefobj.cancel,
            final(heap).at(r.0 as int).cefobj.base().fully_installed(),
            final(heap).at(r.0 as int).cefobj.base().size == core::mem::size_of::<
                UrlRequestVtable,
            >(),
            final(client_heap).live(old(client_heap).len() as int),
            final(client_heap).count(old(client_heap).len() as int) == 1,
            final(client_heap).at(old(client_heap).len() as int).object == client,
            forall|q: int| q != r.0 ==> (final(heap).live(q) <==> old(heap).live(q)),
            forall|q: int|
                final(heap).live(q) && q != r.0 ==> #[trigger] final(heap).at(q) == old(heap).at(q),
    {
        let client_ptr = URLRequestClientWrapper::wrap(client, client_heap);
        let state = UrlRequestState {
            request: request.ptr,
            client: client_ptr.ptr,
            status: URLRequestStatus::Unknown,
            error_code: 0,
            response: 0,
            response_was_cached: false,
        };
        let vtable = UrlRequestVtable { base: BaseRefCounted::zeroed(), cancel: true };
        let size = core::mem::size_of::<UrlRequestVtable>();
        let h = heap.wrap(vtable, state, size);
        URLRequest(h.ptr)
    }

    /// The request object this URL request was created from.
    pub fn get_request(&self, heap: &UrlRequestHeap) -> (r: Request)
        requires
            heap.live(self.0 as int),
        ensures
            r.ptr == heap.at(self.0 as int).object.request,
    {
        let rc = heap.borrow(self.0);
        Request { ptr: rc.object.request }
    }

    /// The raw pointer of the wrapped client.
    pub fn get_client(&self, heap: &UrlRequestHeap) -> (r: usize)
        requires
            heap.live(self.0 as int),
        ensures
            r == heap.at(self.0 as int).object.client,
    {
        let rc = heap.borrow(self.0);
        rc.object.client
    }

    /// The request status.
    pub fn get_request_status(&self, heap: &UrlRequestHeap) -> (r: URLRequestStatus)
        requires
            heap.live(self.0 as int),
        ensures
            r == heap.at(self.0 as int).object.status,
    {
        let rc = heap.borrow(self.0);
        rc.object.status
    }

    /// The request error if the status is canceled or failed, and no error
    /// otherwise.
    pub fn get_request_error(&self, heap: &UrlRequestHeap) -> (r: ErrorCode)
        requires
            heap.live(self.0 as int),
        ensures
            (heap.at(self.0 as int).object.status is Canceled || heap.at(
                self.0 as int,
            ).object.status is Failed) ==> r.code == heap.at(self.0 as int).object.error_code,
            !(heap.at(self.0 as int).object.status is Canceled || heap.at(
                self.0 as int,
            ).object.status is Failed) ==> r.code == 0,
    {
        let rc = heap.borrow(self.0);
        match rc.object.status {
            URLRequestStatus::Canceled | URLRequestStatus::Failed => ErrorCode {
                code: rc.object.error_code,
            },
            _ => ErrorCode { code: 0 },
        }
    }

    /// The response, or nothing while no response information is
    /// available.
    pub fn get_response(&self, heap: &UrlRequestHeap) -> (r: Option<Response>)
        requires
            heap.live(self.0 as int),
        ensures
            heap.at(self.0 as int).object.response == 0 ==> r is None,
            heap.at(self.0 as int).object.response != 0 ==> r == Option::Some(
                Response(heap.at(self.0 as int).object.response),
            ),
    {
        let rc = heap.borrow(self.0);
        if rc.object.response != 0 {
            Some(Response(rc.object.response))
        } else {
            None
        }
    }

    /// Whether the response body was served from the cache.
    pub fn response_was_cached(&self, heap: &UrlRequestHeap) -> (r: bool)
        requires
            heap.live(self.0 as int),
        ensures
            r == heap.at(self.0 as int).object.response_was_cached,
    {
        let rc = heap.borrow(self.0);
        rc.object.response_was_cached
    }

    /// Cancel the request through its cancel slot.  An absent slot means
    /// the operation is unsupported: the call is a no-op, not an error.
    pub fn cancel(&self, heap: &mut UrlRequestHeap)
        requires
            old(heap).wf(),
            old(heap).live(self.0 as int),
        ensures
            final(heap).wf(),
            final(heap).same_counts(*old(heap)),
            old(heap).at(self.0 as int).cefobj.cancel ==> final(heap).at(self.0 as int).object
                == (UrlRequestState {
                status: URLRequestStatus::Canceled,
                error_code: ERR_ABORTED,
                ..old(heap).at(self.0 as int).object
            }),
            !old(heap).at(self.0 as int).cefobj.cancel ==> *final(heap) == *old(heap),
            forall|q: int|
                final(heap).live(q) && q != self.0 ==> #[trigger] final(heap).at(q) == old(
                    heap,
                ).at(q),
    {
        let supported = {
            let rc = heap.borrow(self.0);
            rc.cefobj.cancel
        };
        if supported {
            let o = heap.object_mut(self.0);
            o.status = URLRequestStatus::Canceled;
            o.error_code = ERR_ABORTED;
            proof {
                lemma_wf_preserved(*old(heap), *heap);
            }
        }
    }

    /// Take a raw request pointer in as an owned handle, adding the unit
    /// of reference count the handle stands for.
    pub fn from(heap: &mut UrlRequestHeap, raw: usize) -> (r: URLRequest)
        requires
            old(heap).wf(),
            old(heap).live(raw as int),
            old(heap).count(raw as int) < u64::MAX,
        ensures
            final(heap).wf(),
            r.0 == raw,
            final(heap).same_counts_except(*old(heap), raw as int),
            final(heap).live(raw as int),
            final(heap).count(raw as int) == old(heap).count(raw as int) + 1,
            final(heap).at(raw as int).object == old(heap).at(raw as int).object,
            forall|q: int| q != raw ==> (final(heap).live(q) <==> old(heap).live(q)),
            forall|q: int|
                final(heap).live(q) && q != raw ==> #[trigger] final(heap).at(q) == old(
                    heap,
                ).at(q),
    {
        heap.add_ref(raw);
        proof {
            assert forall|q: int| heap.live(q) && q != raw implies #[trigger] heap.count(q) == old(
                heap,
            ).count(q) by {
                assert(heap.at(q) == old(heap).at(q));
            }
        }
        URLRequest(raw)
    }

    /// Give the handle's unit of reference count back; the last unit
    /// destroys the request object.
    pub fn drop(self, heap: &mut UrlRequestHeap)
        requires
            old(heap).wf(),
            old(heap).live(self.0 as int),
        ensures
            final(heap).wf(),
            final(heap).len() == old(heap).len(),
            old(heap).count(self.0 as int) == 1 ==> !final(heap).live(self.0 as int),
            old(heap).count(self.0 as int) > 1 ==> final(heap).live(self.0 as int)
                && final(heap).count(self.0 as int) == old(heap).count(self.0 as int) - 1
                && final(heap).at(self.0 as int).object == old(heap).at(self.0 as int).object,
            forall|q: int| q != self.0 ==> (final(heap).live(q) <==> old(heap).live(q)),
            forall|q: int|
                final(heap).live(q) && q != self.0 ==> #[trigger] final(heap).at(q) == old(
                    heap,
                ).at(q),
    {
        let _ = heap.release(self.0);
    }
}

/// What an authentication callback has decided so far.
#[derive(PartialEq, Eq, Debug)]
pub enum AuthDecision {
    /// Neither continued nor canceled yet.
    Pending,
    /// Continued with credentials.
    Continued { username: String, password: String },
    /// Canceled.
    Canceled,
}

/// The function table of an authentication callback object: the shared
/// base record and the optional continue and cancel slots.
pub struct AuthCallbackVtable {
    pub base: BaseRefCounted,
    pub cont: bool,
    pub cancel: bool,
}

impl RefCounter for AuthCallbackVtable {
    open spec fn base(&self) -> BaseRefCounted {
        self.base
    }

    open spec fn with_base(&self, base: BaseRefCounted) -> AuthCallbackVtable {
        AuthCallbackVtable { base, ..*self }
    }

    fn set_base(&mut self, base: BaseRefCounted) {
        self.base = base;
    }
}

/// The heap of authentication callback objects.
pub type AuthCallbackHeap = Heap<AuthCallbackVtable, AuthDecision>;

/// An owned handle on an authentication callback; continuing or canceling
/// consumes the handle and its unit of reference count.
#[derive(Clone, Copy, PartialEq, Eq, Structural, Debug)]
pub struct AuthCallback(pub usize);

impl AuthCallback {
    /// Continue the authentication request with the given credentials,
    /// then give the handle's unit of reference count back.  An absent
    /// continue slot leaves the decision untouched: unsupported, not an
    /// error.
    pub fn cont(self, heap: &mut AuthCallbackHeap, username: &str, password: &str)
        requires
            old(heap).wf(),
            old(heap).live(self.0 as int),
        ensures
            final(heap).wf(),
            final(heap).len() == old(heap).len(),
            old(heap).count(self.0 as int) == 1 ==> !final(heap).live(self.0 as int),
            old(heap).count(self.0 as int) > 1 ==> final(heap).live(self.0 as int)
                && final(heap).count(self.0 as int) == old(heap).count(self.0 as int) - 1,
            old(heap).count(self.0 as int) > 1 && old(heap).at(self.0 as int).cefobj.cont ==> ({
                &&& final(heap).at(self.0 as int).object matches AuthDecision::Continued {
                    username: u,
                    password: p,
                }
                &&& u@ == username@
                &&& p@ == password@
            }),
            old(heap).count(self.0 as int) > 1 && !old(heap).at(self.0 as int).cefobj.cont
                ==> final(heap).at(self.0 as int).object == old(heap).at(self.0 as int).object,
            forall|q: int| q != self.0 ==> (final(heap).live(q) <==> old(heap).live(q)),
            forall|q: int|
                final(heap).live(q) && q != self.0 ==> #[trigger] final(heap).at(q) == old(
                    heap,
                ).at(q),
    {
        let supported = {
            let rc = heap.borrow(self.0);
            rc.cefobj.cont
        };
        if supported {
            let o = heap.object_mut(self.0);
            *o = AuthDecision::Continued { username: username.to_owned(), password: password.to_owned() };
            proof {
                lemma_wf_preserved(*old(heap), *heap);
            }
        }
        let _ = heap.release(self.0);
    }

    /// Cancel the authentication request, then give the handle's unit of
    /// reference count back.  An absent cancel slot leaves the decision
    /// untouched: unsupported, not an error.
    pub fn cancel(self, heap: &mut AuthCallbackHeap)
        requires
            old(heap).wf(),
            old(heap).live(self.0 as int),
        ensures
            final(heap).wf(),
            final(heap).len() == old(heap).len(),
            old(heap).count(self.0 as int) == 1 ==> !final(heap).live(self.0 as int),
            old(heap).count(self.0 as int) > 1 ==> final(heap).live(self.0 as int)
                && final(heap).count(self.0 as int) == old(heap).count(self.0 as int) - 1,
            old(heap).count(self.0 as int) > 1 && old(heap).at(self.0 as int).cefobj.cancel
                ==> final(heap).at(self.0 as int).object is Canceled,
            old(heap).count(self.0 as int) > 1 && !old(heap).at(self.0 as int).cefobj.cancel
                ==> final(heap).at(self.0 as int).object == old(heap).at(self.0 as int).object,
            forall|q: int| q != self.0 ==> (final(heap).live(q) <==> old(heap).live(q)),
            forall|q: int|
                final(heap).live(q) && q != self.0 ==> #[trigger] final(heap).at(q) == old(
                    heap,
                ).at(q),
    {
        let supported = {
            let rc = heap.borrow(self.0);
            rc.cefobj.cancel
        };
        if supported {
            let o = heap.object_mut(self.0);
            *o = AuthDecision::Canceled;
            proof {
                lemma_wf_preserved(*old(heap), *heap);
            }
        }
        let _ = heap.release(self.0);
    }

    /// Take a raw callback pointer in as an owned handle, adding the unit
    /// of reference count the handle stands for.
    pub fn from(heap: &mut AuthCallbackHeap, raw: usize) -> (r: AuthCallback)
        requires
            old(heap).wf(),
            old(heap).live(raw as int),
            old(heap).count(raw as int) < u64::MAX,
        ensures
            final(heap).wf(),
            r.0 == raw,
            final(heap).same_counts_except(*old(heap), raw as int),
            final(heap).live(raw as int),
            final(heap).count(raw as int) == old(heap).count(raw as int) + 1,
            final(heap).at(raw as int).object == old(heap).at(raw as int).object,
            forall|q: int| q != raw ==> (final(heap).live(q) <==> old(heap).live(q)),
            forall|q: int|
                final(heap).live(q) && q != raw ==> #[trigger] final(heap).at(q) == old(
                    heap,
                ).at(q),
    {
        heap.add_ref(raw);
        proof {
            assert forall|q: int| heap.live(q) && q != raw implies #[trigger] heap.count(q) == old(
                heap,
            ).count(q) by {
                assert(heap.at(q) == old(heap).at(q));
            }
        }
        AuthCallback(raw)
    }

    /// Give the handle's unit of reference count back without deciding;
    /// the last unit destroys the callback object.
    pub fn drop(self, heap: &mut AuthCallbackHeap)
        requires
            old(heap).wf(),
            old(heap).live(self.0 as int),
        ensures
            final(heap).wf(),
            final(heap).len() == old(heap).len(),
            old(heap).count(self.0 as int) == 1 ==> !final(heap).live(self.0 as int),
            old(heap).count(self.0 as int) > 1 ==> final(heap).live(self.0 as int)
                && final(heap).count(self.0 as int) == old(heap).count(self.0 as int) - 1
                && final(heap).at(self.0 as int).object == old(heap).at(self.0 as int).object,
            forall|q: int| q != self.0 ==> (final(heap).live(q) <==> old(heap).live(q)),
            forall|q: int|
                final(heap).live(q) && q != self.0 ==> #[trigger] final(heap).at(q) == old(
                    heap,
                ).at(q),
    {
        let _ = heap.release(self.0);
    }
}

/// The client of a URL request.  The foreign library invokes these on the
/// thread that created the request unless documented otherwise.
pub trait URLRequestClient {
    /// Notifies the client that the request has completed.
    #[allow(unused_variables)]
    fn on_request_complete(&self, request: &URLRequest) {
    }

    /// Notifies the client of upload progress; a total of -1 means a
    /// chunked upload.
    #[allow(unused_variables)]
    fn on_upload_progress(&self, request: &URLRequest, current: i64, total: i64) {
    }

    /// Notifies the client of download progress; a total of -1 means the
    /// total is not determined.
    #[allow(unused_variables)]
    fn on_download_progress(&self, request: &URLRequest, current: i64, total: i64) {
    }

    /// Called with each part of the response as it is read.
    #[allow(unused_variables)]
    fn on_download_data(&self, request: &URLRequest, data: &[u8]) {
    }

    /// Called when the browser needs credentials.  The handle received
    /// owns one unit of the callback object's reference count;
    /// continuing, canceling or dropping it gives the unit back.  Return
    /// true to continue the request and decide through the callback
    /// later; returning false declines.
    #[allow(unused_variables)]
    fn get_auth_credentials(
        &self,
        is_proxy: bool,
        host: &str,
        port: u16,
        realm: &str,
        scheme: &str,
        callback: AuthCallback,
    ) -> (continued: bool) {
        false
    }
}

/// The function table of a wrapped client: the shared base record first,
/// then one presence flag per callback slot.
pub struct UrlRequestClientVtable {
    pub base: BaseRefCounted,
    pub on_request_complete: bool,
    pub on_upload_progress: bool,
    pub on_download_progress: bool,
    pub on_download_data: bool,
    pub get_auth_credentials: bool,
}

impl UrlRequestClientVtable {
    /// Every callback slot points at its trampoline.
    pub open spec fn all_slots_installed(self) -> bool {
        &&& self.on_request_complete
        &&& self.on_upload_progress
        &&& self.on_download_progress
        &&& self.on_download_data
        &&& self.get_auth_credentials
    }
}

impl RefCounter for UrlRequestClientVtable {
    open spec fn base(&self) -> BaseRefCounted {
        self.base
    }

    open spec fn with_base(&self, base: BaseRefCounted) -> UrlRequestClientVtable {
        UrlRequestClientVtable { base, ..*self }
    }

    fn set_base(&mut self, base: BaseRefCounted) {
        self.base = base;
    }
}

/// The heap of wrapped clients.
pub type UrlRequestClientHeap<D> = Heap<UrlRequestClientVtable, D>;

/// Construction and trampolines for wrapped clients.
pub struct URLRequestClientWrapper();

impl URLRequestClientWrapper {
    /// Build the function table with every slot installed and move the
    /// client into a fresh container; the returned handle owns the
    /// container's initial unit of reference count.
    pub fn wrap<D: URLRequestClient>(client: D, heap: &mut UrlRequestClientHeap<D>) -> (h:
        RefCountedPtr)
        requires
            old(heap).wf(),
        ensures
            final(heap).wf(),
            h.ptr == old(heap).len(),
            final(heap).len() == old(heap).len() + 1,
            final(heap).live(h.ptr as int),
            final(heap).count(h.ptr as int) == 1,
            final(heap).at(h.ptr as int).object == client,
            final(heap).at(h.ptr as int).cefobj.base().fully_installed(),
            final(heap).at(h.ptr as int).cefobj.base().size == core::mem::size_of::<
                UrlRequestClientVtable,
            >(),
            final(heap).at(h.ptr as int).cefobj.all_slots_installed(),
            forall|q: int| q != h.ptr ==> (final(heap).live(q) <==> old(heap).live(q)),
            forall|q: int|
                final(heap).live(q) && q != h.ptr ==> #[trigger] final(heap).at(q) == old(
                    heap,
                ).at(q),
    {
        let vtable = UrlRequestClientVtable {
            base: BaseRefCounted::zeroed(),
            on_request_complete: true,
            on_upload_progress: true,
            on_download_progress: true,
            on_download_data: true,
            get_auth_credentials: true,
        };
        let size = core::mem::size_of::<UrlRequestClientVtable>();
        heap.wrap(vtable, client, size)
    }

    /// Trampoline for the completion slot.
    pub fn request_complete<D: URLRequestClient>(
        heap: &mut UrlRequestClientHeap<D>,
        self_raw: usize,
        request_raw: usize,
    )
        requires
            old(heap).wf(),
            old(heap).live(self_raw as int),
        ensures
            final(heap).wf(),
            *final(heap) == *old(heap),
    {
        let rc = heap.borrow(self_raw);
        let request = URLRequest(request_raw);
        rc.object.on_request_complete(&request);
    }

    /// Trampoline for the upload-progress slot.
    pub fn upload_progress<D: URLRequestClient>(
        heap: &mut UrlRequestClientHeap<D>,
        self_raw: usize,
        request_raw: usize,
        current: i64,
        total: i64,
    )
        requires
            old(heap).wf(),
            old(heap).live(self_raw as int),
        ensures
            final(heap).wf(),
            *final(heap) == *old(heap),
    {
        let rc = heap.borrow(self_raw);
        let request = URLRequest(request_raw);
        rc.object.on_upload_progress(&request, current, total);
    }

    /// Trampoline for the download-progress slot.
    pub fn download_progress<D: URLRequestClient>(
        heap: &mut UrlRequestClientHeap<D>,
        self_raw: usize,
        request_raw: usize,
        current: i64,
        total: i64,
    )
        requires
            old(heap).wf(),
            old(heap).live(self_raw as int),
        ensures
            final(heap).wf(),
            *final(heap) == *old(heap),
    {
        let rc = heap.borrow(self_raw);
        let request = URLRequest(request_raw);
        rc.object.on_download_progress(&request, current, total);
    }

    /// Trampoline for the download-data slot; the raw byte pointer and
    /// length arrive already paired as a slice.
    pub fn download_data<D: URLRequestClient>(
        heap: &mut UrlRequestClientHeap<D>,
        self_raw: usize,
        request_raw: usize,
        data: &[u8],
    )
        requires
            old(heap).wf(),
            old(heap).live(self_raw as int),
        ensures
            final(heap).wf(),
            *final(heap) == *old(heap),
    {
        let rc = heap.borrow(self_raw);
        let request = URLRequest(request_raw);
        rc.object.on_download_data(&request, data);
    }

    /// Trampoline for the credentials slot.  The delegate receives an
    /// owned handle on the authentication callback, so the trampoline
    /// first takes one unit of that object's reference count, as handing
    /// a raw pointer in does; continuing, canceling or dropping the
    /// handle later gives the unit back.  The delegate's answer is
    /// returned as 0 or 1; the port crosses the boundary as a plain
    /// integer and is truncated to the port range as the wire format
    /// prescribes.
    pub fn get_auth_credentials<D: URLRequestClient>(
        heap: &mut UrlRequestClientHeap<D>,
        auth_heap: &mut AuthCallbackHeap,
        self_raw: usize,
        is_proxy: i32,
        host: &str,
        port: i32,
        realm: &str,
        scheme: &str,
        callback_raw: usize,
    ) -> (r: i32)
        requires
            old(heap).wf(),
            old(heap).live(self_raw as int),
            old(auth_heap).wf(),
            old(auth_heap).live(callback_raw as int),
            old(auth_heap).count(callback_raw as int) < u64::MAX,
        ensures
            final(heap).wf(),
            *final(heap) == *old(heap),
            final(auth_heap).wf(),
            final(auth_heap).live(callback_raw as int),
            final(auth_heap).count(callback_raw as int) == old(auth_heap).count(
                callback_raw as int,
            ) + 1,
            final(auth_heap).at(callback_raw as int).object == old(auth_heap).at(
                callback_raw as int,
            ).object,
            final(auth_heap).same_counts_except(*old(auth_heap), callback_raw as int),
            forall|q: int|
                final(auth_heap).live(q) && q != callback_raw ==> #[trigger] final(auth_heap).at(
                    q,
                ) == old(auth_heap).at(q),
            r == 0 || r == 1,
    {
        let callback = AuthCallback::from(auth_heap, callback_raw);
        let rc = heap.borrow(self_raw);
        #[verifier::truncate]
        let port16: u16 = port as u16;
        let continued = rc.object.get_auth_credentials(
            is_proxy != 0,
            host,
            port16,
            realm,
            scheme,
            callback,
        );
        if continued {
            1
        } else {
            0
        }
    }
}

/// Filter for cookies sent with or received from resource requests.
/// Invoked on the IO thread unless documented otherwise; both answers
/// default to declining the cookie.
pub trait CookieAccessFilter {
    /// Whether the cookie may be sent with the request.  Browser and frame
    /// are absent for requests without one.
    #[allow(unused_variables)]
    fn can_send_cookie(
        &self,
        browser: Option<&Browser>,
        frame: Option<&Frame>,
        request: &Request,
        cookie: &Cookie,
    ) -> (allowed: bool) {
        false
    }

    /// Whether the cookie returned with the response may be saved.
    #[allow(unused_variables)]
    fn can_save_cookie(
        &self,
        browser: Option<&Browser>,
        frame: Option<&Frame>,
        request: &Request,
        response: &Response,
        cookie: &Cookie,
    ) -> (allowed: bool) {
        false
    }
}

/// The answer a response filter gives for one chunk.
#[derive(Clone, Copy, PartialEq, Eq, Structural, Debug)]
pub enum ResponseFilterStatus {
    /// Output data is still pending.
    NeedMoreData,
    /// All output data was written.
    Done,
    /// Filtering failed.
    Error,
}

impl ResponseFilterStatus {
    /// The integer the boundary uses for this answer.
    pub open spec fn code_spec(self) -> i32 {
        match self {
            ResponseFilterStatus::NeedMoreData => 0,
            ResponseFilterStatus::Done => 1,
            ResponseFilterStatus::Error => 2,
        }
    }

    /// The integer the boundary uses for this answer.
    pub fn code(self) -> (c: i32)
        ensures
            c == self.code_spec(),
    {
        match self {
            ResponseFilterStatus::NeedMoreData => 0,
            ResponseFilterStatus::Done => 1,
            ResponseFilterStatus::Error => 2,
        }
    }

    /// The answer a boundary integer names, if it names one.
    pub fn from_code(code: i32) -> (r: Option<ResponseFilterStatus>)
        ensures
            r matches Option::Some(s) ==> s.code_spec() == code,
            r is None <==> !(code == 0 || code == 1 || code == 2),
    {
        if code == 0 {
            Some(ResponseFilterStatus::NeedMoreData)
        } else if code == 1 {
            Some(ResponseFilterStatus::Done)
        } else if code == 2 {
            Some(ResponseFilterStatus::Error)
        } else {
            None
        }
    }
}

/// Filter for resource response content, invoked on the IO thread.
pub trait ResponseFilter {
    /// Initialize the filter; returning false keeps it uninstalled.
    fn init_filter(&self) -> (installed: bool) {
        false
    }

    /// Filter one chunk: read from `data_in`, report how much was read,
    /// write to the output and report how much was written, and answer
    /// whether output is complete, pending, or failed.
    #[allow(unused_variables)]
    fn filter(
        &self,
        data_in: &[u8],
        data_in_read: &mut usize,
        data_out: &[u8],
        data_out_written: &mut usize,
    ) -> (status: ResponseFilterStatus) {
        ResponseFilterStatus::Error
    }
}

/// A custom handler answering a resource request, invoked on the IO
/// thread unless documented otherwise.
pub trait ResourceHandler {
    /// Open the response stream: handle at once, defer through the
    /// callback, or cancel.  The default handles the request at once and
    /// cancels it.
    #[allow(unused_variables)]
    fn open(&self, request: &Request, handle_request: &mut bool, callback: Callback) -> (ok: bool) {
        *handle_request = true;
        false
    }

    /// Retrieve response header information: length, optional redirect,
    /// header values on the response object.
    #[allow(unused_variables)]
    fn get_response_headers(
        &self,
        response: &mut Response,
        response_length: &mut i64,
        redirect_url: &mut String,
    ) {
    }

    /// Skip response data; a negative reported count signals failure.
    #[allow(unused_variables)]
    fn skip(&self, bytes_to_skip: i64, bytes_skipped: &mut i64, callback: Callback) -> (ok: bool) {
        false
    }

    /// Read response data into `data_out`; a reported count of 0 with a
    /// false return signals completion, a negative count failure.
    #[allow(unused_variables)]
    fn read(&self, data_out: &mut Vec<u8>, bytes_read: &mut i32, callback: Callback) -> (ok:
        bool) {
        false
    }

    /// Request processing has been canceled.
    fn cancel(&self) {
    }
}

} // verus!
