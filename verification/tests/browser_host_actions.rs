use std::cell::Cell;
use std::rc::Rc;

use cef_bridge::browser_host::{
    BrowserHost, BrowserHostAction, BrowserHostHeap, BrowserHostSlots, BrowserHostVtable,
    DownloadImageCallbackHeap, DownloadImageCallbackWrapper, PaintElementType,
};
use cef_bridge::objects::Image;
use cef_bridge::refcounted::{BaseRefCounted, Heap};
use cef_bridge::values::{DragOperation, MouseButtonType, MouseEvent, State};

fn fresh_host(heap: &mut BrowserHostHeap, slots: BrowserHostSlots) -> BrowserHost {
    let vtable = BrowserHostVtable { base: BaseRefCounted::zeroed(), slots };
    let h = heap.wrap(vtable, (), std::mem::size_of::<BrowserHostVtable>());
    BrowserHost(h.ptr)
}

#[test]
fn installed_slots_produce_the_boundary_call() {
    let mut heap: BrowserHostHeap = Heap::empty();
    let host = fresh_host(&mut heap, BrowserHostSlots::all());

    assert_eq!(
        host.close_browser(&heap, true),
        Some(BrowserHostAction::CloseBrowser { force_close: 1 }),
    );
    assert_eq!(
        host.close_browser(&heap, false),
        Some(BrowserHostAction::CloseBrowser { force_close: 0 }),
    );
    assert_eq!(host.print(&heap), Some(BrowserHostAction::Print));
    assert_eq!(
        host.invalidate(&heap, PaintElementType::Popup),
        Some(BrowserHostAction::Invalidate { element_type: 1 }),
    );
    assert_eq!(
        host.set_accessibility_state(&heap, State::Disabled),
        Some(BrowserHostAction::SetAccessibilityState { accessibility_state: 2 }),
    );
    let event = MouseEvent { x: 4, y: 5, modifiers: 0 };
    assert_eq!(
        host.send_mouse_click_event(&heap, &event, MouseButtonType::Right, true, 2),
        Some(BrowserHostAction::SendMouseClickEvent {
            event,
            button_type: 2,
            mouse_up: 1,
            click_count: 2,
        }),
    );
    assert_eq!(
        host.drag_source_ended_at(&heap, 9, 8, DragOperation { bits: 3 }),
        Some(BrowserHostAction::DragSourceEndedAt { x: 9, y: 8, op: 3 }),
    );
    assert_eq!(
        host.start_download(&heap, "https://example.test/file"),
        Some(BrowserHostAction::StartDownload { url: String::from("https://example.test/file") }),
    );
    assert_eq!(
        host.find(&heap, 7, "needle", true, false, true),
        Some(BrowserHostAction::Find {
            identifier: 7,
            search_text: String::from("needle"),
            forward: 1,
            match_case: 0,
            find_next: 1,
        }),
    );
}

#[test]
fn absent_slots_are_silent_no_ops() {
    let mut heap: BrowserHostHeap = Heap::empty();
    let host = fresh_host(&mut heap, BrowserHostSlots::none());

    assert_eq!(host.close_browser(&heap, true), None);
    assert_eq!(host.print(&heap), None);
    assert_eq!(host.start_download(&heap, "https://example.test/file"), None);
    assert_eq!(host.find(&heap, 7, "needle", true, false, true), None);
    assert_eq!(host.get_extension(&heap, 12), None);
}

#[test]
fn absent_query_slots_report_the_documented_default() {
    let mut heap: BrowserHostHeap = Heap::empty();
    let host = fresh_host(&mut heap, BrowserHostSlots::none());

    assert!(!host.try_close_browser(&heap, 1));
    assert!(!host.has_view(&heap, 1));
    assert!(!host.has_dev_tools(&heap, 1));
    assert!(!host.is_audio_muted(&heap, 1));
    assert_eq!(host.get_windowless_frame_rate(&heap, 60), 30);
}

#[test]
fn installed_query_slots_pass_the_foreign_answer_through() {
    let mut heap: BrowserHostHeap = Heap::empty();
    let host = fresh_host(&mut heap, BrowserHostSlots::all());

    assert!(host.try_close_browser(&heap, 1));
    assert!(!host.try_close_browser(&heap, 0));
    assert!(host.has_view(&heap, 5));
    assert_eq!(host.get_windowless_frame_rate(&heap, 60), 60);
    assert_eq!(host.get_client(&heap, 0), None);
    assert_eq!(host.get_client(&heap, 23).map(|c| c.ptr), Some(23));
    assert_eq!(host.get_browser(&heap, 31).ptr, 31);
}

#[test]
fn download_image_wraps_the_callback_once() {
    let mut heap: BrowserHostHeap = Heap::empty();
    let host = fresh_host(&mut heap, BrowserHostSlots::all());
    let fired = Rc::new(Cell::new(0u32));
    let fired_in_closure = Rc::clone(&fired);
    let closure = move |url: String, status: u16, image: Option<Image>| {
        assert_eq!(url, "https://example.test/icon.png");
        assert_eq!(status, 200);
        assert_eq!(image, Some(Image { ptr: 77 }));
        fired_in_closure.set(fired_in_closure.get() + 1);
    };

    let mut cb_heap: DownloadImageCallbackHeap<_> = Heap::empty();
    let action = host.download_image(
        &heap,
        &mut cb_heap,
        "https://example.test/icon.png",
        false,
        0,
        true,
        closure,
    );
    let callback_ptr = match action {
        Some(BrowserHostAction::DownloadImage {
            image_url,
            is_favicon,
            max_image_size,
            bypass_cache,
            callback,
        }) => {
            assert_eq!(image_url, "https://example.test/icon.png");
            assert_eq!(is_favicon, 0);
            assert_eq!(max_image_size, 0);
            assert_eq!(bypass_cache, 1);
            callback
        },
        _ => panic!("expected a download action"),
    };
    assert!(cb_heap.has_one_ref(callback_ptr));

    DownloadImageCallbackWrapper::download_image_finished(
        &mut cb_heap,
        callback_ptr,
        String::from("https://example.test/icon.png"),
        200,
        77,
    );
    assert_eq!(fired.get(), 1);
    DownloadImageCallbackWrapper::download_image_finished(
        &mut cb_heap,
        callback_ptr,
        String::from("https://example.test/icon.png"),
        200,
        77,
    );
    assert_eq!(fired.get(), 1);
}

#[test]
fn download_image_without_a_slot_discards_the_callback() {
    let mut heap: BrowserHostHeap = Heap::empty();
    let host = fresh_host(&mut heap, BrowserHostSlots::none());
    let fired = Rc::new(Cell::new(0u32));
    let fired_in_closure = Rc::clone(&fired);
    let closure = move |_url: String, _status: u16, _image: Option<Image>| {
        fired_in_closure.set(fired_in_closure.get() + 1);
    };

    let mut cb_heap: DownloadImageCallbackHeap<_> = Heap::empty();
    let action = host.download_image(&heap, &mut cb_heap, "u", false, 0, false, closure);
    assert!(action.is_none());
    assert_eq!(fired.get(), 0);
    assert_eq!(Rc::strong_count(&fired), 1);
}

#[test]
fn paint_element_codes_round_trip() {
    assert_eq!(PaintElementType::View.code(), 0);
    assert_eq!(PaintElementType::Popup.code(), 1);
    assert_eq!(PaintElementType::from_unchecked(0), PaintElementType::View);
    assert_eq!(PaintElementType::from_unchecked(1), PaintElementType::Popup);
}
