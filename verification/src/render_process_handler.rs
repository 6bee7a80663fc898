//! Render-process callbacks: capability trait, wrap construction and
//! trampolines.
//!
//! A delegate implementing [`RenderProcessHandler`] is wrapped into a
//! foreign-shaped container whose function table fills every slot.  Each
//! trampoline receives the raw self pointer the foreign side passes as the
//! call's first parameter, reconstructs a borrowed view of the wrapper,
//! converts the remaining raw parameters into safe values, and dispatches
//! to the delegate.  No trampoline changes any object's reference count:
//! the foreign caller holds the unit of count that keeps the container
//! alive for the duration of the call.

use vstd::prelude::*;

use crate::objects::{
    Browser, DOMNode, DictionaryValue, Frame, ListValue, LoadHandler, ProcessId, ProcessMessage,
    V8Context, V8Exception, V8StackTrace,
};
use crate::refcounted::{lemma_wf_preserved, BaseRefCounted, Heap, RefCountedPtr, RefCounter};

verus! {

/// Render-process callbacks.  The foreign library invokes these on the
/// render process main thread unless documented otherwise; a delegate that
/// leaves a method to its default declines the event.
pub trait RenderProcessHandler {
    /// Called after the render process main thread has been created.
    #[allow(unused_variables)]
    fn on_render_thread_created(&self, extra_info: &ListValue) {
    }

    /// Called after the rendering engine has been initialized.
    fn on_web_kit_initialized(&self) {
    }

    /// Called after a browser has been created.
    #[allow(unused_variables)]
    fn on_browser_created(&self, browser: &Browser, extra_info: &DictionaryValue) {
    }

    /// Called before a browser is destroyed.
    #[allow(unused_variables)]
    fn on_browser_destroyed(&self, browser: &Browser) {
    }

    /// Return the handler for browser load status events, or nothing to
    /// decline the capability.
    fn get_load_handler(&self) -> (r: Option<LoadHandler>) {
        None
    }

    /// Called immediately after the script context for a frame has been
    /// created.
    #[allow(unused_variables)]
    fn on_context_created(&self, browser: &Browser, frame: &Frame, context: &V8Context) {
    }

    /// Called immediately before the script context for a frame is
    /// released.
    #[allow(unused_variables)]
    fn on_context_released(&self, browser: &Browser, frame: &Frame, context: &V8Context) {
    }

    /// Called for global uncaught exceptions in a frame.
    #[allow(unused_variables)]
    fn on_uncaught_exception(
        &self,
        browser: &Browser,
        frame: &Frame,
        context: &V8Context,
        exception: &V8Exception,
        stack_trace: &V8StackTrace,
    ) {
    }

    /// Called when a new node in the browser gets focus; no node means no
    /// specific node has gained focus.
    #[allow(unused_variables)]
    fn on_focused_node_changed(&self, browser: &Browser, frame: &Frame, node: Option<&DOMNode>) {
    }

    /// Called when a new message is received from a different process.
    /// Return true if the message was handled.
    #[allow(unused_variables)]
    fn on_process_message_received(
        &self,
        browser: &Browser,
        frame: &Frame,
        source_process: ProcessId,
        message: &ProcessMessage,
    ) -> (handled: bool) {
        false
    }
}

/// The foreign-shaped function table of a wrapped render-process handler:
/// the shared base record first, then one presence flag per callback slot.
pub struct RenderProcessHandlerVtable {
    pub base: BaseRefCounted,
    pub on_render_thread_created: bool,
    pub on_web_kit_initialized: bool,
    pub on_browser_created: bool,
    pub on_browser_destroyed: bool,
    pub get_load_handler: bool,
    pub on_context_created: bool,
    pub on_context_released: bool,
    pub on_uncaught_exception: bool,
    pub on_focused_node_changed: bool,
    pub on_process_message_received: bool,
}

impl RenderProcessHandlerVtable {
    /// Every callback slot points at its trampoline.
    pub open spec fn all_slots_installed(self) -> bool {
        &&& self.on_render_thread_created
        &&& self.on_web_kit_initialized
        &&& self.on_browser_created
        &&& self.on_browser_destroyed
        &&& self.get_load_handler
        &&& self.on_context_created
        &&& self.on_context_released
        &&& self.on_uncaught_exception
        &&& self.on_focused_node_changed
        &&& self.on_process_message_received
    }
}

impl RefCounter for RenderProcessHandlerVtable {
    open spec fn base(&self) -> BaseRefCounted {
        self.base
    }

    open spec fn with_base(&self, base: BaseRefCounted) -> RenderProcessHandlerVtable {
        RenderProcessHandlerVtable { base, ..*self }
    }

    fn set_base(&mut self, base: BaseRefCounted) {
        self.base = base;
    }
}

/// A delegate together with the cache for the load handler the foreign
/// side may ask for repeatedly.
pub struct RenderProcessHandlerWrapper<D> {
    pub delegate: D,
    pub load_handler: Option<LoadHandler>,
}

/// The heap of wrapped render-process handlers.
pub type RenderProcessHandlerHeap<D> = Heap<RenderProcessHandlerVtable, RenderProcessHandlerWrapper<D>>;

impl<D: RenderProcessHandler> RenderProcessHandlerWrapper<D> {
    /// Wrap a delegate; no load handler has been handed out yet.
    pub fn new(delegate: D) -> (w: RenderProcessHandlerWrapper<D>)
        ensures
            w.delegate == delegate,
            w.load_handler is None,
    {
        RenderProcessHandlerWrapper { delegate, load_handler: None }
    }

    /// The wrapped delegate.
    pub fn borrow(&self) -> (d: &D)
        ensures
            *d == self.delegate,
    {
        &self.delegate
    }

    /// Build the function table with every slot installed and move the
    /// wrapper into a fresh container; the returned handle owns the
    /// container's initial unit of reference count.
    pub fn wrap(self, heap: &mut RenderProcessHandlerHeap<D>) -> (h: RefCountedPtr)
        requires
            old(heap).wf(),
        ensures
            final(heap).wf(),
            h.ptr == old(heap).len(),
            final(heap).len() == old(heap).len() + 1,
            final(heap).live(h.ptr as int),
            final(heap).count(h.ptr as int) == 1,
            final(heap).at(h.ptr as int).object == self,
            final(heap).at(h.ptr as int).cefobj.base().fully_installed(),
            final(heap).at(h.ptr as int).cefobj.base().size == core::mem::size_of::<
                RenderProcessHandlerVtable,
            >(),
            final(heap).at(h.ptr as int).cefobj.all_slots_installed(),
            forall|q: int| q != h.ptr ==> (final(heap).live(q) <==> old(heap).live(q)),
            forall|q: int|
                final(heap).live(q) && q != h.ptr ==> #[trigger] final(heap).at(q) == old(
                    heap,
                ).at(q),
    {
        let vtable = RenderProcessHandlerVtable {
            base: BaseRefCounted::zeroed(),
            on_render_thread_created: true,
            on_web_kit_initialized: true,
            on_browser_created: true,
            on_browser_destroyed: true,
            get_load_handler: true,
            on_context_created: true,
            on_context_released: true,
            on_uncaught_exception: true,
            on_focused_node_changed: true,
            on_process_message_received: true,
        };
        let size = core::mem::size_of::<RenderProcessHandlerVtable>();
        heap.wrap(vtable, self, size)
    }
}

/// Trampoline for the thread-creation slot.
pub fn render_thread_created<D: RenderProcessHandler>(
    heap: &mut RenderProcessHandlerHeap<D>,
    self_raw: usize,
    extra_info_raw: usize,
)
    requires
        old(heap).wf(),
        old(heap).live(self_raw as int),
    ensures
        final(heap).wf(),
        *final(heap) == *old(heap),
{
    let rc = heap.borrow(self_raw);
    let extra_info = ListValue { ptr: extra_info_raw };
    rc.object.delegate.on_render_thread_created(&extra_info);
}

/// Trampoline for the rendering-engine-initialized slot.
pub fn web_kit_initialized<D: RenderProcessHandler>(
    heap: &mut RenderProcessHandlerHeap<D>,
    self_raw: usize,
)
    requires
        old(heap).wf(),
        old(heap).live(self_raw as int),
    ensures
        final(heap).wf(),
        *final(heap) == *old(heap),
{
    let rc = heap.borrow(self_raw);
    rc.object.delegate.on_web_kit_initialized();
}

/// Trampoline for the browser-created slot.
pub fn browser_created<D: RenderProcessHandler>(
    heap: &mut RenderProcessHandlerHeap<D>,
    self_raw: usize,
    browser_raw: usize,
    extra_info_raw: usize,
)
    requires
        old(heap).wf(),
        old(heap).live(self_raw as int),
    ensures
        final(heap).wf(),
        *final(heap) == *old(heap),
{
    let rc = heap.borrow(self_raw);
    let browser = Browser { ptr: browser_raw };
    let extra_info = DictionaryValue { ptr: extra_info_raw };
    rc.object.delegate.on_browser_created(&browser, &extra_info);
}

/// Trampoline for the browser-destroyed slot.
pub fn browser_destroyed<D: RenderProcessHandler>(
    heap: &mut RenderProcessHandlerHeap<D>,
    self_raw: usize,
    browser_raw: usize,
)
    requires
        old(heap).wf(),
        old(heap).live(self_raw as int),
    ensures
        final(heap).wf(),
        *final(heap) == *old(heap),
{
    let rc = heap.borrow(self_raw);
    let browser = Browser { ptr: browser_raw };
    rc.object.delegate.on_browser_destroyed(&browser);
}

/// Trampoline for the load-handler query.  The delegate's answer is cached
/// in the wrapper and handed back as a raw pointer; declining the
/// capability clears the cache and returns the null pointer.  A handler
/// the delegate returns under the null pointer counts as declined.
pub fn get_load_handler<D: RenderProcessHandler>(
    heap: &mut RenderProcessHandlerHeap<D>,
    self_raw: usize,
) -> (r: usize)
    requires
        old(heap).wf(),
        old(heap).live(self_raw as int),
    ensures
        final(heap).wf(),
        final(heap).same_counts(*old(heap)),
        final(heap).live(self_raw as int),
        final(heap).at(self_raw as int).object.delegate == old(heap).at(
            self_raw as int,
        ).object.delegate,
        r == 0 ==> final(heap).at(self_raw as int).object.load_handler is None,
        r != 0 ==> final(heap).at(self_raw as int).object.load_handler == Option::Some(
            (LoadHandler { ptr: r }),
        ),
        forall|q: int|
            final(heap).live(q) && q != self_raw ==> #[trigger] final(heap).at(q) == old(
                heap,
            ).at(q),
{
    let answer = {
        let rc = heap.borrow(self_raw);
        rc.object.delegate.get_load_handler()
    };
    let o = heap.object_mut(self_raw);
    let r: usize;
    match answer {
        Some(handler) => {
            if handler.ptr != 0 {
                o.load_handler = Some(handler);
                r = handler.ptr;
            } else {
                o.load_handler = None;
                r = 0;
            }
        },
        None => {
            o.load_handler = None;
            r = 0;
        },
    }
    proof {
        lemma_wf_preserved(*old(heap), *heap);
    }
    r
}

/// Trampoline for the context-created slot.
pub fn context_created<D: RenderProcessHandler>(
    heap: &mut RenderProcessHandlerHeap<D>,
    self_raw: usize,
    browser_raw: usize,
    frame_raw: usize,
    context_raw: usize,
)
    requires
        old(heap).wf(),
        old(heap).live(self_raw as int),
    ensures
        final(heap).wf(),
        *final(heap) == *old(heap),
{
    let rc = heap.borrow(self_raw);
    let browser = Browser { ptr: browser_raw };
    let frame = Frame { ptr: frame_raw };
    let context = V8Context { ptr: context_raw };
    rc.object.delegate.on_context_created(&browser, &frame, &context);
}

/// Trampoline for the context-released slot.
pub fn context_released<D: RenderProcessHandler>(
    heap: &mut RenderProcessHandlerHeap<D>,
    self_raw: usize,
    browser_raw: usize,
    frame_raw: usize,
    context_raw: usize,
)
    requires
        old(heap).wf(),
        old(heap).live(self_raw as int),
    ensures
        final(heap).wf(),
        *final(heap) == *old(heap),
{
    let rc = heap.borrow(self_raw);
    let browser = Browser { ptr: browser_raw };
    let frame = Frame { ptr: frame_raw };
    let context = V8Context { ptr: context_raw };
    rc.object.delegate.on_context_released(&browser, &frame, &context);
}

/// Trampoline for the uncaught-exception slot.
pub fn uncaught_exception<D: RenderProcessHandler>(
    heap: &mut RenderProcessHandlerHeap<D>,
    self_raw: usize,
    browser_raw: usize,
    frame_raw: usize,
    context_raw: usize,
    exception_raw: usize,
    stack_trace_raw: usize,
)
    requires
        old(heap).wf(),
        old(heap).live(self_raw as int),
    ensures
        final(heap).wf(),
        *final(heap) == *old(heap),
{
    let rc = heap.borrow(self_raw);
    let browser = Browser { ptr: browser_raw };
    let frame = Frame { ptr: frame_raw };
    let context = V8Context { ptr: context_raw };
    let exception = V8Exception { ptr: exception_raw };
    let stack_trace = V8StackTrace { ptr: stack_trace_raw };
    rc.object.delegate.on_uncaught_exception(&browser, &frame, &context, &exception, &stack_trace);
}

/// Trampoline for the focus-change slot.  A null node pointer crosses the
/// boundary as the absence of a node, not as an error.
pub fn focused_node_changed<D: RenderProcessHandler>(
    heap: &mut RenderProcessHandlerHeap<D>,
    self_raw: usize,
    browser_raw: usize,
    frame_raw: usize,
    node_raw: usize,
)
    requires
        old(heap).wf(),
        old(heap).live(self_raw as int),
    ensures
        final(heap).wf(),
        *final(heap) == *old(heap),
{
    let rc = heap.borrow(self_raw);
    let browser = Browser { ptr: browser_raw };
    let frame = Frame { ptr: frame_raw };
    let node = DOMNode { ptr: node_raw };
    if node_raw != 0 {
        rc.object.delegate.on_focused_node_changed(&browser, &frame, Some(&node));
    } else {
        rc.object.delegate.on_focused_node_changed(&browser, &frame, None);
    }
}

/// Trampoline for the message-received slot.  The delegate's answer is
/// returned as 0 or 1; a source-process integer that names no process is a
/// conversion error and yields the conservative answer 0, "not handled",
/// without reaching the delegate.
pub fn process_message_received<D: RenderProcessHandler>(
    heap: &mut RenderProcessHandlerHeap<D>,
    self_raw: usize,
    browser_raw: usize,
    frame_raw: usize,
    source_process: i32,
    message_raw: usize,
) -> (r: i32)
    requires
        old(heap).wf(),
        old(heap).live(self_raw as int),
    ensures
        final(heap).wf(),
        *final(heap) == *old(heap),
        r == 0 || r == 1,
        ProcessId::from_code_spec(source_process) is None ==> r == 0,
{
    let pid = match ProcessId::from_code(source_process) {
        Some(pid) => pid,
        None => {
            return 0;
        },
    };
    let rc = heap.borrow(self_raw);
    let browser = Browser { ptr: browser_raw };
    let frame = Frame { ptr: frame_raw };
    let message = ProcessMessage { ptr: message_raw };
    let handled = rc.object.delegate.on_process_message_received(&browser, &frame, pid, &message);
    if handled {
        1
    } else {
        0
    }
}

} // verus!
