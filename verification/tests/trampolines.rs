use std::cell::{Cell, RefCell};
use std::rc::Rc;

use cef_bridge::browser_host::{
    NavigationEntryVisit, NavigationEntryVisitor, NavigationEntryVisitorCallback,
    NavigationEntryVisitorHeap, NavigationEntryVisitorWrapper, PDFPrintCallbackWrapper,
    PdfPrintCallbackHeap,
};
use cef_bridge::objects::LoadHandler;
use cef_bridge::refcounted::Heap;
use cef_bridge::render_process_handler::{
    browser_created, get_load_handler, process_message_received, render_thread_created,
    RenderProcessHandler, RenderProcessHandlerHeap, RenderProcessHandlerWrapper,
};

#[derive(Default)]
struct Recorder {
    events: RefCell<Vec<String>>,
    handler: Option<LoadHandler>,
}

impl RenderProcessHandler for Recorder {
    fn on_render_thread_created(&self, extra_info: &cef_bridge::objects::ListValue) {
        self.events.borrow_mut().push(format!("thread:{}", extra_info.ptr));
    }

    fn on_browser_created(
        &self,
        browser: &cef_bridge::objects::Browser,
        _extra_info: &cef_bridge::objects::DictionaryValue,
    ) {
        self.events.borrow_mut().push(format!("browser:{}", browser.ptr));
    }

    fn get_load_handler(&self) -> Option<LoadHandler> {
        self.handler
    }

    fn on_process_message_received(
        &self,
        _browser: &cef_bridge::objects::Browser,
        _frame: &cef_bridge::objects::Frame,
        source_process: cef_bridge::objects::ProcessId,
        _message: &cef_bridge::objects::ProcessMessage,
    ) -> bool {
        self.events.borrow_mut().push(format!("message:{}", source_process.code()));
        true
    }
}

#[test]
fn trampolines_dispatch_to_the_delegate_without_touching_the_count() {
    let mut heap: RenderProcessHandlerHeap<Recorder> = Heap::empty();
    let w = RenderProcessHandlerWrapper::new(Recorder {
        handler: Some(LoadHandler { ptr: 70 }),
        ..Recorder::default()
    });
    let h = w.wrap(&mut heap);

    render_thread_created(&mut heap, h.ptr, 5);
    browser_created(&mut heap, h.ptr, 31, 32);
    let answered = process_message_received(&mut heap, h.ptr, 31, 33, 1, 34);
    assert_eq!(answered, 1);

    let events = heap.borrow(h.ptr).object.delegate.events.borrow().clone();
    assert_eq!(events, vec!["thread:5", "browser:31", "message:1"]);
    assert!(heap.has_one_ref(h.ptr));
}

#[test]
fn unknown_source_process_is_answered_conservatively() {
    let mut heap: RenderProcessHandlerHeap<Recorder> = Heap::empty();
    let h = RenderProcessHandlerWrapper::new(Recorder::default()).wrap(&mut heap);
    let answered = process_message_received(&mut heap, h.ptr, 31, 33, 99, 34);
    assert_eq!(answered, 0);
    assert!(heap.borrow(h.ptr).object.delegate.events.borrow().is_empty());
}

#[test]
fn load_handler_query_caches_the_answer() {
    let mut heap: RenderProcessHandlerHeap<Recorder> = Heap::empty();
    let h = RenderProcessHandlerWrapper::new(Recorder {
        handler: Some(LoadHandler { ptr: 70 }),
        ..Recorder::default()
    }).wrap(&mut heap);
    assert_eq!(heap.borrow(h.ptr).object.load_handler, None);
    let r = get_load_handler(&mut heap, h.ptr);
    assert_eq!(r, 70);
    assert_eq!(heap.borrow(h.ptr).object.load_handler, Some(LoadHandler { ptr: 70 }));
}

#[test]
fn declined_load_handler_returns_null_and_clears_the_cache() {
    let mut heap: RenderProcessHandlerHeap<Recorder> = Heap::empty();
    let h = RenderProcessHandlerWrapper::new(Recorder::default()).wrap(&mut heap);
    let r = get_load_handler(&mut heap, h.ptr);
    assert_eq!(r, 0);
    assert_eq!(heap.borrow(h.ptr).object.load_handler, None);
}

#[test]
fn one_shot_trampoline_consumes_the_closure_exactly_once() {
    // End to end: wrap a closure capturing a unique resource, fire the
    // generated trampoline twice, and watch the resource be consumed once.
    let fired = Rc::new(Cell::new(0u32));
    let resource = Rc::new(String::from("receipt"));

    let fired_in_closure = Rc::clone(&fired);
    let resource_in_closure = Rc::clone(&resource);
    let closure = move |path: String, ok: bool| {
        assert_eq!(path, "out.pdf");
        assert!(ok);
        assert_eq!(*resource_in_closure, "receipt");
        drop(resource_in_closure);
        fired_in_closure.set(fired_in_closure.get() + 1);
    };

    let mut heap: PdfPrintCallbackHeap<_> = Heap::empty();
    let h = PDFPrintCallbackWrapper::new(closure).wrap(&mut heap);
    assert_eq!(Rc::strong_count(&resource), 2);

    PDFPrintCallbackWrapper::pdf_print_finished(&mut heap, h.ptr, String::from("out.pdf"), 1);
    assert_eq!(fired.get(), 1);
    assert_eq!(Rc::strong_count(&resource), 1);

    // The second invocation finds the cell empty: no effect, no panic.
    PDFPrintCallbackWrapper::pdf_print_finished(&mut heap, h.ptr, String::from("out.pdf"), 1);
    assert_eq!(fired.get(), 1);
    assert!(heap.has_one_ref(h.ptr));
}

struct Collecting {
    seen: Vec<(usize, bool, usize, usize)>,
    stop_at: usize,
}

impl NavigationEntryVisitorCallback for Collecting {
    fn visit(&mut self, entry: NavigationEntryVisit) -> bool {
        self.seen.push((entry.entry.ptr, entry.current, entry.index, entry.total));
        entry.index < self.stop_at
    }
}

#[test]
fn visitor_trampoline_converts_and_reports_the_answer() {
    let mut heap: NavigationEntryVisitorHeap<Collecting> = Heap::empty();
    let visitor = NavigationEntryVisitor::new(&mut heap, Collecting { seen: Vec::new(), stop_at: 2 });

    let more = NavigationEntryVisitorWrapper::visit(&mut heap, visitor.0, 40, 1, 0, 3);
    assert_eq!(more, 1);
    let more = NavigationEntryVisitorWrapper::visit(&mut heap, visitor.0, 41, 0, 1, 3);
    assert_eq!(more, 1);
    let more = NavigationEntryVisitorWrapper::visit(&mut heap, visitor.0, 42, 0, 2, 3);
    assert_eq!(more, 0);

    let seen = &heap.borrow(visitor.0).object.callback.get().seen;
    assert_eq!(seen[0], (40, true, 0, 3));
    assert_eq!(seen[1], (41, false, 1, 3));
    assert_eq!(seen[2], (42, false, 2, 3));
    assert!(heap.has_one_ref(visitor.0));
}
