use std::cell::Cell;
use std::rc::Rc;

use cef_bridge::browser_host::{
    BrowserHost, BrowserHostAction, BrowserHostHeap, BrowserHostSlots, BrowserHostVtable,
    NavigationEntryVisit, NavigationEntryVisitor, NavigationEntryVisitorCallback,
    NavigationEntryVisitorHeap, PDFPrintCallbackWrapper, PdfPrintCallbackHeap,
    RunFileDialogCallbackHeap, RunFileDialogCallbackWrapper,
};
use cef_bridge::objects::{Client, DevToolsMessageObserver, DictionaryValue, RequestContext};
use cef_bridge::refcounted::{BaseRefCounted, Heap};
use cef_bridge::values::{
    BrowserSettings, CompositionUnderline, FileDialogMode, KeyEvent, PDFPrintSettings, Point,
    Range, WindowInfo,
};

fn fresh_host(heap: &mut BrowserHostHeap, slots: BrowserHostSlots) -> BrowserHost {
    let vtable = BrowserHostVtable { base: BaseRefCounted::zeroed(), slots };
    let h = heap.wrap(vtable, (), std::mem::size_of::<BrowserHostVtable>());
    BrowserHost(h.ptr)
}

#[test]
fn dev_tools_calls_carry_their_arguments() {
    let mut heap: BrowserHostHeap = Heap::empty();
    let host = fresh_host(&mut heap, BrowserHostSlots::all());

    let (action, accepted) =
        host.send_dev_tools_message(&heap, vec![b'{', b'}'], 1);
    assert_eq!(action, Some(BrowserHostAction::SendDevToolsMessage { message: vec![b'{', b'}'] }));
    assert!(accepted);

    let (action, accepted) = host.execute_dev_tools_method(
        &heap,
        9,
        "Page.enable",
        Some(DictionaryValue { ptr: 5 }),
        0,
    );
    assert_eq!(
        action,
        Some(BrowserHostAction::ExecuteDevToolsMethod {
            message_id: 9,
            method: String::from("Page.enable"),
            params: 5,
        }),
    );
    assert!(!accepted);

    let (action, registration) = host.add_dev_tools_message_observer(
        &heap,
        DevToolsMessageObserver { ptr: 44 },
        45,
    );
    assert_eq!(action, Some(BrowserHostAction::AddDevToolsMessageObserver { observer: 44 }));
    assert_eq!(registration.map(|r| r.ptr), Some(45));
}

#[test]
fn absent_dev_tools_slots_answer_the_documented_default() {
    let mut heap: BrowserHostHeap = Heap::empty();
    let host = fresh_host(&mut heap, BrowserHostSlots::none());

    let (action, accepted) = host.send_dev_tools_message(&heap, vec![b'{', b'}'], 1);
    assert_eq!(action, None);
    assert!(!accepted);

    let (action, accepted) = host.execute_dev_tools_method(&heap, 9, "Page.enable", None, 1);
    assert_eq!(action, None);
    assert!(!accepted);

    let (action, registration) = host.add_dev_tools_message_observer(
        &heap,
        DevToolsMessageObserver { ptr: 44 },
        0,
    );
    assert_eq!(action, None);
    assert!(registration.is_none());
}

#[test]
fn composition_calls_carry_their_arguments() {
    let mut heap: BrowserHostHeap = Heap::empty();
    let host = fresh_host(&mut heap, BrowserHostSlots::all());

    let underline = CompositionUnderline {
        range: Range { from: 0, to: 2 },
        color: 1,
        background_color: 2,
        thick: 0,
    };
    let action = host.ime_set_composition(
        &heap,
        "ab",
        1,
        &underline,
        &Range { from: 0, to: 0 },
        &Range { from: 2, to: 2 },
    );
    assert_eq!(
        action,
        Some(BrowserHostAction::ImeSetComposition {
            text: String::from("ab"),
            underlines_count: 1,
            underlines: underline,
            replacement_range: Range { from: 0, to: 0 },
            selection_range: Range { from: 2, to: 2 },
        }),
    );

    let action = host.ime_commit_text(&heap, Some("ab"), None, -1);
    assert_eq!(
        action,
        Some(BrowserHostAction::ImeCommitText {
            text: Some(String::from("ab")),
            replacement_range: None,
            relative_cursor_pos: -1,
        }),
    );
    assert_eq!(host.ime_cancel_composition(&heap), Some(BrowserHostAction::ImeCancelComposition));
}

#[test]
fn show_dev_tools_defaults_an_absent_client_to_null() {
    let mut heap: BrowserHostHeap = Heap::empty();
    let host = fresh_host(&mut heap, BrowserHostSlots::all());

    let action = host.show_dev_tools(&heap, &WindowInfo, None, None, Point { x: 3, y: 4 });
    assert_eq!(
        action,
        Some(BrowserHostAction::ShowDevTools {
            window_info: WindowInfo,
            client: 0,
            settings: None,
            inspect_element_at: Point { x: 3, y: 4 },
        }),
    );

    let action = host.show_dev_tools(
        &heap,
        &WindowInfo,
        Some(Client { ptr: 12 }),
        Some(BrowserSettings),
        Point { x: 0, y: 0 },
    );
    match action {
        Some(BrowserHostAction::ShowDevTools { client, settings, .. }) => {
            assert_eq!(client, 12);
            assert_eq!(settings, Some(BrowserSettings));
        },
        _ => panic!("expected a dev-tools action"),
    }
}

#[test]
fn key_events_cross_only_through_an_installed_slot() {
    let mut heap: BrowserHostHeap = Heap::empty();
    let with_slots = fresh_host(&mut heap, BrowserHostSlots::all());
    let without = fresh_host(&mut heap, BrowserHostSlots::none());

    assert_eq!(
        with_slots.send_key_event(&heap, KeyEvent),
        Some(BrowserHostAction::SendKeyEvent { event: KeyEvent }),
    );
    assert_eq!(without.send_key_event(&heap, KeyEvent), None);
}

#[test]
fn create_browser_sync_always_crosses_and_rewraps_the_answer() {
    let (action, browser) = BrowserHost::create_browser_sync(
        &WindowInfo,
        Client { ptr: 8 },
        "https://example.test/",
        &BrowserSettings,
        None,
        Some(RequestContext { ptr: 9 }),
        17,
    );
    assert_eq!(browser.ptr, 17);
    assert_eq!(
        action,
        BrowserHostAction::CreateBrowserSync {
            window_info: WindowInfo,
            client: 8,
            url: String::from("https://example.test/"),
            settings: BrowserSettings,
            extra_info: 0,
            request_context: 9,
        },
    );
}

#[test]
fn print_to_pdf_wraps_its_completion_closure() {
    let mut heap: BrowserHostHeap = Heap::empty();
    let host = fresh_host(&mut heap, BrowserHostSlots::all());
    let fired = Rc::new(Cell::new(0u32));
    let fired_in_closure = Rc::clone(&fired);

    let mut cb_heap: PdfPrintCallbackHeap<_> = Heap::empty();
    let action = host.print_to_pdf(
        &heap,
        &mut cb_heap,
        "out.pdf",
        &PDFPrintSettings,
        move |path: String, ok: bool| {
            assert_eq!(path, "out.pdf");
            assert!(!ok);
            fired_in_closure.set(fired_in_closure.get() + 1);
        },
    );
    let callback_ptr = match action {
        Some(BrowserHostAction::PrintToPdf { path, settings, callback }) => {
            assert_eq!(path, "out.pdf");
            assert_eq!(settings, PDFPrintSettings);
            callback
        },
        _ => panic!("expected a print action"),
    };

    PDFPrintCallbackWrapper::pdf_print_finished(&mut cb_heap, callback_ptr, String::from("out.pdf"), 0);
    assert_eq!(fired.get(), 1);
}

#[test]
fn file_dialog_reports_cancellation_as_no_paths() {
    let mut heap: BrowserHostHeap = Heap::empty();
    let host = fresh_host(&mut heap, BrowserHostSlots::all());
    let outcome: Rc<Cell<Option<usize>>> = Rc::new(Cell::new(None));
    let outcome_in_closure = Rc::clone(&outcome);

    let mut cb_heap: RunFileDialogCallbackHeap<_> = Heap::empty();
    let action = host.run_file_dialog(
        &heap,
        &mut cb_heap,
        FileDialogMode::Save,
        Some("pick a file"),
        None,
        vec![String::from(".txt")],
        0,
        move |selected: usize, paths: Option<Vec<String>>| {
            assert!(paths.is_none());
            outcome_in_closure.set(Some(selected));
        },
    );
    let callback_ptr = match action {
        Some(BrowserHostAction::RunFileDialog {
            mode,
            title,
            default_file_path,
            accept_filters,
            selected_accept_filter,
            callback,
        }) => {
            assert_eq!(mode, 3);
            assert_eq!(title, Some(String::from("pick a file")));
            assert_eq!(default_file_path, None);
            assert_eq!(accept_filters, vec![String::from(".txt")]);
            assert_eq!(selected_accept_filter, 0);
            callback
        },
        _ => panic!("expected a file-dialog action"),
    };

    RunFileDialogCallbackWrapper::file_dialog_dismissed(&mut cb_heap, callback_ptr, 0, None);
    assert_eq!(outcome.get(), Some(0));
}

struct QuietVisitor;

impl NavigationEntryVisitorCallback for QuietVisitor {
    fn visit(&mut self, _entry: NavigationEntryVisit) -> bool {
        false
    }
}

#[test]
fn navigation_visitor_unit_crosses_or_is_released() {
    let mut heap: BrowserHostHeap = Heap::empty();
    let with_slot = fresh_host(&mut heap, BrowserHostSlots::all());
    let without = fresh_host(&mut heap, BrowserHostSlots::none());

    let mut visitors: NavigationEntryVisitorHeap<QuietVisitor> = Heap::empty();
    let visitor = NavigationEntryVisitor::new(&mut visitors, QuietVisitor);
    // Keep a second unit so the absent-slot drop is observable.
    visitors.add_ref(visitor.0);

    let action = with_slot.get_navigation_entries(&heap, &mut visitors, visitor, true);
    assert_eq!(
        action,
        Some(BrowserHostAction::GetNavigationEntries { visitor: visitor.0, current_only: 1 }),
    );
    assert!(!visitors.has_one_ref(visitor.0));

    let action = without.get_navigation_entries(&heap, &mut visitors, visitor, false);
    assert_eq!(action, None);
    assert!(visitors.has_one_ref(visitor.0));
}
