//! The browser-host surface: completion-callback wrappers, the navigation
//! entry visitor, and the slot-guarded call decisions of the host object.
//!
//! The host object itself lives on the foreign side; every operation on it
//! is a call through an optional function-pointer slot.  The decision each
//! operation makes — whether its slot is installed, how its arguments cross
//! the boundary, what an absent slot defaults to — is stated and verified
//! here.  Completion callbacks hand a movable closure across the boundary:
//! they are wrapped into a one-shot cell inside a reference-counted
//! container, and their trampolines take the closure out at most once.

use vstd::prelude::*;

use crate::objects::{
    Browser, Client, DevToolsMessageObserver, DictionaryValue, DragData, Extension, Image,
    NavigationEntry, Registration, RequestContext,
};
use crate::oneshot::OneShotCell;
use crate::refcounted::{lemma_wf_preserved, BaseRefCounted, Heap, RefCountedPtr, RefCounter};
use crate::send_protector::SendProtectorMut;
use crate::values::{
    BrowserSettings, CompositionUnderline, DragOperation, FileDialogMode, KeyEvent,
    MouseButtonType, MouseEvent, PDFPrintSettings, Point, Range, Size, State, TouchEvent,
    WindowInfo,
};

verus! {

/// Paint element types.
#[derive(Clone, Copy, PartialEq, Eq, Structural, Debug)]
pub enum PaintElementType {
    View,
    Popup,
}

impl PaintElementType {
    /// The integer the boundary uses for this element type.
    pub open spec fn code_spec(self) -> i32 {
        match self {
            PaintElementType::View => 0,
            PaintElementType::Popup => 1,
        }
    }

    /// The integer the boundary uses for this element type.
    pub fn code(self) -> (c: i32)
        ensures
            c == self.code_spec(),
    {
        match self {
            PaintElementType::View => 0,
            PaintElementType::Popup => 1,
        }
    }

    /// Read an element type off a boundary integer the caller knows to be
    /// valid; no runtime check is made.
    pub fn from_unchecked(c: i32) -> (r: PaintElementType)
        requires
            c == 0 || c == 1,
        ensures
            r.code_spec() == c,
    {
        if c == 0 {
            PaintElementType::View
        } else {
            PaintElementType::Popup
        }
    }
}

/// The function table of a download-image completion callback.
pub struct DownloadImageCallbackVtable {
    pub base: BaseRefCounted,
    pub on_download_image_finished: bool,
}

impl RefCounter for DownloadImageCallbackVtable {
    open spec fn base(&self) -> BaseRefCounted {
        self.base
    }

    open spec fn with_base(&self, base: BaseRefCounted) -> DownloadImageCallbackVtable {
        DownloadImageCallbackVtable { base, ..*self }
    }

    fn set_base(&mut self, base: BaseRefCounted) {
        self.base = base;
    }
}

/// The converted argument triple a download-image completion closure is
/// invoked with: the URL, the HTTP status truncated to 16 bits as the
/// wire format prescribes, and the image behind a non-null pointer.
pub open spec fn download_image_args(
    image_url: String,
    http_status_code: i32,
    image_raw: usize,
) -> (String, u16, Option<Image>) {
    (
        image_url,
        http_status_code as u16,
        if image_raw == 0 {
            Option::None
        } else {
            Option::Some((Image { ptr: image_raw }))
        },
    )
}

/// A one-shot completion closure for an image download, invoked with the
/// downloaded URL, the HTTP status and the image if one arrived.
pub struct DownloadImageCallbackWrapper<F> {
    pub callback: OneShotCell<F>,
}

/// The heap of wrapped download-image callbacks.
pub type DownloadImageCallbackHeap<F> = Heap<
    DownloadImageCallbackVtable,
    DownloadImageCallbackWrapper<F>,
>;

impl<F: FnOnce(String, u16, Option<Image>)> DownloadImageCallbackWrapper<F> {
    /// Arm a fresh cell with the completion closure.
    pub fn new(callback: F) -> (w: DownloadImageCallbackWrapper<F>)
        ensures
            w.callback.contents() == Option::Some(callback),
    {
        DownloadImageCallbackWrapper { callback: OneShotCell::new(callback) }
    }

    /// Build the function table with the completion slot installed and
    /// move the cell into a fresh container.
    pub fn wrap(self, heap: &mut DownloadImageCallbackHeap<F>) -> (h: RefCountedPtr)
        requires
            old(heap).wf(),
        ensures
            final(heap).wf(),
            h.ptr == old(heap).len(),
            final(heap).len() == old(heap).len() + 1,
            final(heap).live(h.ptr as int),
            final(heap).count(h.ptr as int) == 1,
            final(heap).at(h.ptr as int).object == self,
            final(heap).at(h.ptr as int).cefobj.base().fully_installed(),
            final(heap).at(h.ptr as int).cefobj.base().size == core::mem::size_of::<
                DownloadImageCallbackVtable,
            >(),
            final(heap).at(h.ptr as int).cefobj.on_download_image_finished,
            forall|q: int| q != h.ptr ==> (final(heap).live(q) <==> old(heap).live(q)),
            forall|q: int|
                final(heap).live(q) && q != h.ptr ==> #[trigger] final(heap).at(q) == old(
                    heap,
                ).at(q),
    {
        let vtable = DownloadImageCallbackVtable {
            base: BaseRefCounted::zeroed(),
            on_download_image_finished: true,
        };
        let size = core::mem::size_of::<DownloadImageCallbackVtable>();
        heap.wrap(vtable, self, size)
    }

    /// Trampoline for the completion slot.  The first invocation takes the
    /// closure out of the cell and runs it with the converted arguments; a
    /// null image pointer arrives as the absence of an image; any later
    /// invocation finds the cell empty and is a no-op.  No reference count
    /// changes either way.
    pub fn download_image_finished(
        heap: &mut DownloadImageCallbackHeap<F>,
        self_raw: usize,
        image_url: String,
        http_status_code: i32,
        image_raw: usize,
    )
        requires
            old(heap).wf(),
            old(heap).live(self_raw as int),
            forall|f: F|
                old(heap).at(self_raw as int).object.callback.contents() == Option::Some(f)
                    ==> #[trigger] call_requires(
                    f,
                    download_image_args(image_url, http_status_code, image_raw),
                ),
        ensures
            final(heap).wf(),
            final(heap).same_counts(*old(heap)),
            final(heap).live(self_raw as int),
            !final(heap).at(self_raw as int).object.callback.armed(),
            forall|f: F|
                old(heap).at(self_raw as int).object.callback.contents() == Option::Some(f)
                    ==> #[trigger] call_ensures(
                    f,
                    download_image_args(image_url, http_status_code, image_raw),
                    (),
                ),
            forall|q: int|
                final(heap).live(q) && q != self_raw ==> #[trigger] final(heap).at(q) == old(
                    heap,
                ).at(q),
    {
        let o = heap.object_mut(self_raw);
        let taken = o.callback.take();
        proof {
            lemma_wf_preserved(*old(heap), *heap);
        }
        let image = if image_raw == 0 {
            None
        } else {
            Some(Image { ptr: image_raw })
        };
        #[verifier::truncate]
        let status: u16 = http_status_code as u16;
        match taken {
            Some(callback) => {
                proof {
                    assert(call_requires(
                        callback,
                        download_image_args(image_url, http_status_code, image_raw),
                    ));
                    assert(download_image_args(image_url, http_status_code, image_raw) == (
                        image_url,
                        status,
                        image,
                    ));
                }
                callback(image_url, status, image)
            },
            None => (),
        }
    }
}

/// The function table of a print-to-file completion callback.
pub struct PdfPrintCallbackVtable {
    pub base: BaseRefCounted,
    pub on_pdf_print_finished: bool,
}

impl RefCounter for PdfPrintCallbackVtable {
    open spec fn base(&self) -> BaseRefCounted {
        self.base
    }

    open spec fn with_base(&self, base: BaseRefCounted) -> PdfPrintCallbackVtable {
        PdfPrintCallbackVtable { base, ..*self }
    }

    fn set_base(&mut self, base: BaseRefCounted) {
        self.base = base;
    }
}

/// The converted argument pair a print completion closure is invoked
/// with: the output path, and success decoded from a non-zero integer.
pub open spec fn pdf_print_args(path: String, ok: i32) -> (String, bool) {
    (path, ok != 0)
}

/// A one-shot completion closure for printing to a file, invoked with the
/// output path and whether printing succeeded.
pub struct PDFPrintCallbackWrapper<F> {
    pub callback: OneShotCell<F>,
}

/// The heap of wrapped print completion callbacks.
pub type PdfPrintCallbackHeap<F> = Heap<PdfPrintCallbackVtable, PDFPrintCallbackWrapper<F>>;

impl<F: FnOnce(String, bool)> PDFPrintCallbackWrapper<F> {
    /// Arm a fresh cell with the completion closure.
    pub fn new(callback: F) -> (w: PDFPrintCallbackWrapper<F>)
        ensures
            w.callback.contents() == Option::Some(callback),
    {
        PDFPrintCallbackWrapper { callback: OneShotCell::new(callback) }
    }

    /// Build the function table with the completion slot installed and
    /// move the cell into a fresh container.
    pub fn wrap(self, heap: &mut PdfPrintCallbackHeap<F>) -> (h: RefCountedPtr)
        requires
            old(heap).wf(),
        ensures
            final(heap).wf(),
            h.ptr == old(heap).len(),
            final(heap).len() == old(heap).len() + 1,
            final(heap).live(h.ptr as int),
            final(heap).count(h.ptr as int) == 1,
            final(heap).at(h.ptr as int).object == self,
            final(heap).at(h.ptr as int).cefobj.base().fully_installed(),
            final(heap).at(h.ptr as int).cefobj.base().size == core::mem::size_of::<
                PdfPrintCallbackVtable,
            >(),
            final(heap).at(h.ptr as int).cefobj.on_pdf_print_finished,
            forall|q: int| q != h.ptr ==> (final(heap).live(q) <==> old(heap).live(q)),
            forall|q: int|
                final(heap).live(q) && q != h.ptr ==> #[trigger] final(heap).at(q) == old(
                    heap,
                ).at(q),
    {
        let vtable = PdfPrintCallbackVtable {
            base: BaseRefCounted::zeroed(),
            on_pdf_print_finished: true,
        };
        let size = core::mem::size_of::<PdfPrintCallbackVtable>();
        heap.wrap(vtable, self, size)
    }

    /// Trampoline for the completion slot.  The success flag crosses the
    /// boundary as an integer, zero meaning failure.  The first invocation
    /// runs the closure; later ones find the cell empty and do nothing.
    pub fn pdf_print_finished(
        heap: &mut PdfPrintCallbackHeap<F>,
        self_raw: usize,
        path: String,
        ok: i32,
    )
        requires
            old(heap).wf(),
            old(heap).live(self_raw as int),
            forall|f: F|
                old(heap).at(self_raw as int).object.callback.contents() == Option::Some(f)
                    ==> #[trigger] call_requires(f, pdf_print_args(path, ok)),
        ensures
            final(heap).wf(),
            final(heap).same_counts(*old(heap)),
            final(heap).live(self_raw as int),
            !final(heap).at(self_raw as int).object.callback.armed(),
            forall|f: F|
                old(heap).at(self_raw as int).object.callback.contents() == Option::Some(f)
                    ==> #[trigger] call_ensures(f, pdf_print_args(path, ok), ()),
            forall|q: int|
                final(heap).live(q) && q != self_raw ==> #[trigger] final(heap).at(q) == old(
                    heap,
                ).at(q),
    {
        let o = heap.object_mut(self_raw);
        let taken = o.callback.take();
        proof {
            lemma_wf_preserved(*old(heap), *heap);
        }
        let succeeded = ok != 0;
        match taken {
            Some(callback) => {
                proof {
                    assert(call_requires(callback, pdf_print_args(path, ok)));
                    assert(pdf_print_args(path, ok) == (path, succeeded));
                }
                callback(path, succeeded)
            },
            None => (),
        }
    }
}

/// One navigation entry as handed to a visitor.
pub struct NavigationEntryVisit {
    /// Current navigation entry.  Do not keep a reference to this field
    /// outside of the visitor callback.
    pub entry: NavigationEntry,
    /// Whether or not this is the currently loaded navigation entry.
    pub current: bool,
    /// The 0-based index of this entry.
    pub index: usize,
    /// The total number of navigation entries.
    pub total: usize,
}

/// A visitor over navigation entries.  Returns whether or not to continue
/// visiting more navigation entries.
pub trait NavigationEntryVisitorCallback {
    /// Visit one entry; return false to stop the walk.
    fn visit(&mut self, entry: NavigationEntryVisit) -> bool;
}

/// The function table of a wrapped navigation entry visitor.
pub struct NavigationEntryVisitorVtable {
    pub base: BaseRefCounted,
    pub visit: bool,
}

impl RefCounter for NavigationEntryVisitorVtable {
    open spec fn base(&self) -> BaseRefCounted {
        self.base
    }

    open spec fn with_base(&self, base: BaseRefCounted) -> NavigationEntryVisitorVtable {
        NavigationEntryVisitorVtable { base, ..*self }
    }

    fn set_base(&mut self, base: BaseRefCounted) {
        self.base = base;
    }
}

/// A visitor callback confined to the thread the visiting walk is
/// documented to run on.
pub struct NavigationEntryVisitorWrapper<V> {
    pub callback: SendProtectorMut<V>,
}

/// The heap of wrapped navigation entry visitors.
pub type NavigationEntryVisitorHeap<V> = Heap<
    NavigationEntryVisitorVtable,
    NavigationEntryVisitorWrapper<V>,
>;

impl<V: NavigationEntryVisitorCallback> NavigationEntryVisitorWrapper<V> {
    /// Confine the callback for the visiting thread.
    pub fn new(callback: V) -> (w: NavigationEntryVisitorWrapper<V>)
        ensures
            w.callback.value() == callback,
    {
        NavigationEntryVisitorWrapper { callback: SendProtectorMut::new(callback) }
    }

    /// Build the function table with the visit slot installed and move
    /// the confined callback into a fresh container.
    pub fn wrap(self, heap: &mut NavigationEntryVisitorHeap<V>) -> (h: RefCountedPtr)
        requires
            old(heap).wf(),
        ensures
            final(heap).wf(),
            h.ptr == old(heap).len(),
            final(heap).len() == old(heap).len() + 1,
            final(heap).live(h.ptr as int),
            final(heap).count(h.ptr as int) == 1,
            final(heap).at(h.ptr as int).object == self,
            final(heap).at(h.ptr as int).cefobj.base().fully_installed(),
            final(heap).at(h.ptr as int).cefobj.base().size == core::mem::size_of::<
                NavigationEntryVisitorVtable,
            >(),
            final(heap).at(h.ptr as int).cefobj.visit,
            forall|q: int| q != h.ptr ==> (final(heap).live(q) <==> old(heap).live(q)),
            forall|q: int|
                final(heap).live(q) && q != h.ptr ==> #[trigger] final(heap).at(q) == old(
                    heap,
                ).at(q),
    {
        let vtable = NavigationEntryVisitorVtable { base: BaseRefCounted::zeroed(), visit: true };
        let size = core::mem::size_of::<NavigationEntryVisitorVtable>();
        heap.wrap(vtable, self, size)
    }

    /// Trampoline for the visit slot.  The current flag crosses the
    /// boundary as an integer, zero meaning false; index and total cross
    /// as plain integers and are reread as counts, as the wire format
    /// prescribes.  The callback's answer goes back as 0 or 1.  No
    /// reference count changes.
    pub fn visit(
        heap: &mut NavigationEntryVisitorHeap<V>,
        self_raw: usize,
        entry_raw: usize,
        current: i32,
        index: i32,
        total: i32,
    ) -> (r: i32)
        requires
            old(heap).wf(),
            old(heap).live(self_raw as int),
        ensures
            final(heap).wf(),
            final(heap).same_counts(*old(heap)),
            final(heap).live(self_raw as int),
            r == 0 || r == 1,
            forall|q: int|
                final(heap).live(q) && q != self_raw ==> #[trigger] final(heap).at(q) == old(
                    heap,
                ).at(q),
    {
        #[verifier::truncate]
        let index_count: usize = index as usize;
        #[verifier::truncate]
        let total_count: usize = total as usize;
        let o = heap.object_mut(self_raw);
        let cb = o.callback.get_mut();
        let keep_going = cb.visit(
            NavigationEntryVisit {
                entry: NavigationEntry { ptr: entry_raw },
                current: current != 0,
                index: index_count,
                total: total_count,
            },
        );
        proof {
            lemma_wf_preserved(*old(heap), *heap);
        }
        if keep_going {
            1
        } else {
            0
        }
    }
}

/// An owned handle on a wrapped navigation entry visitor.
#[derive(Clone, Copy, PartialEq, Eq, Structural, Debug)]
pub struct NavigationEntryVisitor(pub usize);

impl NavigationEntryVisitor {
    /// Wrap a visitor callback into a fresh foreign-shaped container and
    /// hand back the owning handle on it.
    pub fn new<V: NavigationEntryVisitorCallback>(
        heap: &mut NavigationEntryVisitorHeap<V>,
        callback: V,
    ) -> (r: NavigationEntryVisitor)
        requires
            old(heap).wf(),
        ensures
            final(heap).wf(),
            r.0 == old(heap).len(),
            final(heap).len() == old(heap).len() + 1,
            final(heap).live(r.0 as int),
            final(heap).count(r.0 as int) == 1,
            final(heap).at(r.0 as int).object.callback.value() == callback,
            final(heap).at(r.0 as int).cefobj.base().fully_installed(),
            final(heap).at(r.0 as int).cefobj.base().size == core::mem::size_of::<
                NavigationEntryVisitorVtable,
            >(),
            final(heap).at(r.0 as int).cefobj.visit,
            forall|q: int| q != r.0 ==> (final(heap).live(q) <==> old(heap).live(q)),
            forall|q: int|
                final(heap).live(q) && q != r.0 ==> #[trigger] final(heap).at(q) == old(heap).at(q),
    {
        let w = NavigationEntryVisitorWrapper::new(callback);
        let h = w.wrap(heap);
        NavigationEntryVisitor(h.ptr)
    }
}


/// The optional slots of a browser-host function table: one presence flag
/// per operation.
pub struct BrowserHostSlots {
    pub get_browser: bool,
    pub close_browser: bool,
    pub try_close_browser: bool,
    pub set_focus: bool,
    pub has_view: bool,
    pub get_client: bool,
    pub get_request_context: bool,
    pub run_file_dialog: bool,
    pub start_download: bool,
    pub download_image: bool,
    pub print: bool,
    pub print_to_pdf: bool,
    pub find: bool,
    pub stop_finding: bool,
    pub close_dev_tools: bool,
    pub has_dev_tools: bool,
    pub send_dev_tools_message: bool,
    pub execute_dev_tools_method: bool,
    pub add_dev_tools_message_observer: bool,
    pub get_navigation_entries: bool,
    pub set_mouse_cursor_change_disabled: bool,
    pub is_mouse_cursor_change_disabled: bool,
    pub replace_misspelling: bool,
    pub add_word_to_dictionary: bool,
    pub is_window_rendering_disabled: bool,
    pub was_resized: bool,
    pub was_hidden: bool,
    pub notify_screen_info_changed: bool,
    pub invalidate: bool,
    pub send_external_begin_frame: bool,
    pub send_mouse_click_event: bool,
    pub send_mouse_move_event: bool,
    pub send_mouse_wheel_event: bool,
    pub send_focus_event: bool,
    pub send_capture_lost_event: bool,
    pub notify_move_or_resize_started: bool,
    pub get_windowless_frame_rate: bool,
    pub set_windowless_frame_rate: bool,
    pub ime_commit_text: bool,
    pub ime_finish_composing_text: bool,
    pub ime_cancel_composition: bool,
    pub drag_target_drag_enter: bool,
    pub drag_target_drag_over: bool,
    pub drag_target_drag_leave: bool,
    pub drag_target_drop: bool,
    pub drag_source_ended_at: bool,
    pub drag_source_system_drag_ended: bool,
    pub get_visible_navigation_entry: bool,
    pub set_accessibility_state: bool,
    pub set_auto_resize_enabled: bool,
    pub get_extension: bool,
    pub is_background_host: bool,
    pub set_audio_muted: bool,
    pub is_audio_muted: bool,
    pub show_dev_tools: bool,
    pub send_key_event: bool,
    pub send_touch_event: bool,
    pub ime_set_composition: bool,
}


impl BrowserHostSlots {
    /// A table with every optional slot absent.
    pub fn none() -> (s: BrowserHostSlots)
        ensures
            s == (BrowserHostSlots {
                get_browser: false,
                close_browser: false,
                try_close_browser: false,
                set_focus: false,
                has_view: false,
                get_client: false,
                get_request_context: false,
                run_file_dialog: false,
                start_download: false,
                download_image: false,
                print: false,
                print_to_pdf: false,
                find: false,
                stop_finding: false,
                close_dev_tools: false,
                has_dev_tools: false,
                send_dev_tools_message: false,
                execute_dev_tools_method: false,
                add_dev_tools_message_observer: false,
                get_navigation_entries: false,
                set_mouse_cursor_change_disabled: false,
                is_mouse_cursor_change_disabled: false,
                replace_misspelling: false,
                add_word_to_dictionary: false,
                is_window_rendering_disabled: false,
                was_resized: false,
                was_hidden: false,
                notify_screen_info_changed: false,
                invalidate: false,
                send_external_begin_frame: false,
                send_mouse_click_event: false,
                send_mouse_move_event: false,
                send_mouse_wheel_event: false,
                send_focus_event: false,
                send_capture_lost_event: false,
                notify_move_or_resize_started: false,
                get_windowless_frame_rate: false,
                set_windowless_frame_rate: false,
                ime_commit_text: false,
                ime_finish_composing_text: false,
                ime_cancel_composition: false,
                drag_target_drag_enter: false,
                drag_target_drag_over: false,
                drag_target_drag_leave: false,
                drag_target_drop: false,
                drag_source_ended_at: false,
                drag_source_system_drag_ended: false,
                get_visible_navigation_entry: false,
                set_accessibility_state: false,
                set_auto_resize_enabled: false,
                get_extension: false,
                is_background_host: false,
                set_audio_muted: false,
                is_audio_muted: false,
                show_dev_tools: false,
                send_key_event: false,
                send_touch_event: false,
                ime_set_composition: false,
            }),
    {
        BrowserHostSlots {
                get_browser: false,
                close_browser: false,
                try_close_browser: false,
                set_focus: false,
                has_view: false,
                get_client: false,
                get_request_context: false,
                run_file_dialog: false,
                start_download: false,
                download_image: false,
                print: false,
                print_to_pdf: false,
                find: false,
                stop_finding: false,
                close_dev_tools: false,
                has_dev_tools: false,
                send_dev_tools_message: false,
                execute_dev_tools_method: false,
                add_dev_tools_message_observer: false,
                get_navigation_entries: false,
                set_mouse_cursor_change_disabled: false,
                is_mouse_cursor_change_disabled: false,
                replace_misspelling: false,
                add_word_to_dictionary: false,
                is_window_rendering_disabled: false,
                was_resized: false,
                was_hidden: false,
                notify_screen_info_changed: false,
                invalidate: false,
                send_external_begin_frame: false,
                send_mouse_click_event: false,
                send_mouse_move_event: false,
                send_mouse_wheel_event: false,
                send_focus_event: false,
                send_capture_lost_event: false,
                notify_move_or_resize_started: false,
                get_windowless_frame_rate: false,
                set_windowless_frame_rate: false,
                ime_commit_text: false,
                ime_finish_composing_text: false,
                ime_cancel_composition: false,
                drag_target_drag_enter: false,
                drag_target_drag_over: false,
                drag_target_drag_leave: false,
                drag_target_drop: false,
                drag_source_ended_at: false,
                drag_source_system_drag_ended: false,
                get_visible_navigation_entry: false,
                set_accessibility_state: false,
                set_auto_resize_enabled: false,
                get_extension: false,
                is_background_host: false,
                set_audio_muted: false,
                is_audio_muted: false,
                show_dev_tools: false,
                send_key_event: false,
                send_touch_event: false,
                ime_set_composition: false,
            }
    }

    /// A table with every optional slot installed.
    pub fn all() -> (s: BrowserHostSlots)
        ensures
            s == (BrowserHostSlots {
                get_browser: true,
                close_browser: true,
                try_close_browser: true,
                set_focus: true,
                has_view: true,
                get_client: true,
                get_request_context: true,
                run_file_dialog: true,
                start_download: true,
                download_image: true,
                print: true,
                print_to_pdf: true,
                find: true,
                stop_finding: true,
                close_dev_tools: true,
                has_dev_tools: true,
                send_dev_tools_message: true,
                execute_dev_tools_method: true,
                add_dev_tools_message_observer: true,
                get_navigation_entries: true,
                set_mouse_cursor_change_disabled: true,
                is_mouse_cursor_change_disabled: true,
                replace_misspelling: true,
                add_word_to_dictionary: true,
                is_window_rendering_disabled: true,
                was_resized: true,
                was_hidden: true,
                notify_screen_info_changed: true,
                invalidate: true,
                send_external_begin_frame: true,
                send_mouse_click_event: true,
                send_mouse_move_event: true,
                send_mouse_wheel_event: true,
                send_focus_event: true,
                send_capture_lost_event: true,
                notify_move_or_resize_started: true,
                get_windowless_frame_rate: true,
                set_windowless_frame_rate: true,
                ime_commit_text: true,
                ime_finish_composing_text: true,
                ime_cancel_composition: true,
                drag_target_drag_enter: true,
                drag_target_drag_over: true,
                drag_target_drag_leave: true,
                drag_target_drop: true,
                drag_source_ended_at: true,
                drag_source_system_drag_ended: true,
                get_visible_navigation_entry: true,
                set_accessibility_state: true,
                set_auto_resize_enabled: true,
                get_extension: true,
                is_background_host: true,
                set_audio_muted: true,
                is_audio_muted: true,
                show_dev_tools: true,
                send_key_event: true,
                send_touch_event: true,
                ime_set_composition: true,
            }),
    {
        BrowserHostSlots {
                get_browser: true,
                close_browser: true,
                try_close_browser: true,
                set_focus: true,
                has_view: true,
                get_client: true,
                get_request_context: true,
                run_file_dialog: true,
                start_download: true,
                download_image: true,
                print: true,
                print_to_pdf: true,
                find: true,
                stop_finding: true,
                close_dev_tools: true,
                has_dev_tools: true,
                send_dev_tools_message: true,
                execute_dev_tools_method: true,
                add_dev_tools_message_observer: true,
                get_navigation_entries: true,
                set_mouse_cursor_change_disabled: true,
                is_mouse_cursor_change_disabled: true,
                replace_misspelling: true,
                add_word_to_dictionary: true,
                is_window_rendering_disabled: true,
                was_resized: true,
                was_hidden: true,
                notify_screen_info_changed: true,
                invalidate: true,
                send_external_begin_frame: true,
                send_mouse_click_event: true,
                send_mouse_move_event: true,
                send_mouse_wheel_event: true,
                send_focus_event: true,
                send_capture_lost_event: true,
                notify_move_or_resize_started: true,
                get_windowless_frame_rate: true,
                set_windowless_frame_rate: true,
                ime_commit_text: true,
                ime_finish_composing_text: true,
                ime_cancel_composition: true,
                drag_target_drag_enter: true,
                drag_target_drag_over: true,
                drag_target_drag_leave: true,
                drag_target_drop: true,
                drag_source_ended_at: true,
                drag_source_system_drag_ended: true,
                get_visible_navigation_entry: true,
                set_accessibility_state: true,
                set_auto_resize_enabled: true,
                get_extension: true,
                is_background_host: true,
                set_audio_muted: true,
                is_audio_muted: true,
                show_dev_tools: true,
                send_key_event: true,
                send_touch_event: true,
                ime_set_composition: true,
            }
    }
}

/// The function table of a browser-host object, as far as this side reads
/// it: the shared base record and the presence flags of the optional
/// slots.
pub struct BrowserHostVtable {
    pub base: BaseRefCounted,
    pub slots: BrowserHostSlots,
}

impl RefCounter for BrowserHostVtable {
    open spec fn base(&self) -> BaseRefCounted {
        self.base
    }

    open spec fn with_base(&self, base: BaseRefCounted) -> BrowserHostVtable {
        BrowserHostVtable { base, slots: self.slots }
    }

    fn set_base(&mut self, base: BaseRefCounted) {
        self.base = base;
    }
}

/// The heap of browser-host objects; their internals belong to the foreign
/// side, so the payload is empty.
pub type BrowserHostHeap = Heap<BrowserHostVtable, ()>;

/// One call into the foreign browser host, with every argument already in
/// its boundary form: flags as 0-or-1 integers, enumerations as their
/// codes, objects as raw pointers (0 for null), text as owned strings.
/// An operation whose slot is absent produces no action at all.
#[derive(PartialEq, Eq, Debug)]
pub enum BrowserHostAction {
    CloseBrowser { force_close: i32 },
    SetFocus { focus: i32 },
    RunFileDialog {
        mode: u32,
        title: Option<String>,
        default_file_path: Option<String>,
        accept_filters: Vec<String>,
        selected_accept_filter: i32,
        callback: usize,
    },
    StartDownload { url: String },
    DownloadImage {
        image_url: String,
        is_favicon: i32,
        max_image_size: u32,
        bypass_cache: i32,
        callback: usize,
    },
    Print,
    PrintToPdf { path: String, settings: PDFPrintSettings, callback: usize },
    Find { identifier: i32, search_text: String, forward: i32, match_case: i32, find_next: i32 },
    StopFinding { clear_selection: i32 },
    CloseDevTools,
    SendDevToolsMessage { message: Vec<u8> },
    ExecuteDevToolsMethod { message_id: i32, method: String, params: usize },
    AddDevToolsMessageObserver { observer: usize },
    GetNavigationEntries { visitor: usize, current_only: i32 },
    SetMouseCursorChangeDisabled { disabled: i32 },
    ReplaceMisspelling { word: String },
    AddWordToDictionary { word: String },
    WasResized,
    WasHidden { hidden: i32 },
    NotifyScreenInfoChanged,
    Invalidate { element_type: i32 },
    SendExternalBeginFrame,
    SendMouseClickEvent { event: MouseEvent, button_type: i32, mouse_up: i32, click_count: i32 },
    SendMouseMoveEvent { event: MouseEvent, mouse_leave: i32 },
    SendMouseWheelEvent { event: MouseEvent, delta_x: i32, delta_y: i32 },
    SendFocusEvent { set_focus: i32 },
    SendCaptureLostEvent,
    NotifyMoveOrResizeStarted,
    SetWindowlessFrameRate { frame_rate: i32 },
    ImeCommitText { text: Option<String>, replacement_range: Option<Range>, relative_cursor_pos: i32 },
    ImeFinishComposingText { keep_selection: i32 },
    ImeCancelComposition,
    DragTargetDragEnter { drag_data: usize, event: MouseEvent, allowed_ops: u32 },
    DragTargetDragOver { event: MouseEvent, allowed_ops: u32 },
    DragTargetDragLeave,
    DragTargetDrop { event: MouseEvent },
    DragSourceEndedAt { x: i32, y: i32, op: u32 },
    DragSourceSystemDragEnded,
    SetAccessibilityState { accessibility_state: i32 },
    SetAutoResizeEnabled { enabled: i32, min_size: Size, max_size: Size },
    SetAudioMuted { mute: i32 },
    ShowDevTools {
        window_info: WindowInfo,
        client: usize,
        settings: Option<BrowserSettings>,
        inspect_element_at: Point,
    },
    SendKeyEvent { event: KeyEvent },
    SendTouchEvent { event: TouchEvent },
    ImeSetComposition {
        text: String,
        underlines_count: usize,
        underlines: CompositionUnderline,
        replacement_range: Range,
        selection_range: Range,
    },
    CreateBrowserSync {
        window_info: WindowInfo,
        client: usize,
        url: String,
        settings: BrowserSettings,
        extra_info: usize,
        request_context: usize,
    },
}

/// An owned handle on a browser-host object.  Every operation on it is a
/// call through an optional slot of its function table: the methods below
/// decide whether the call is made and with which boundary arguments, and
/// interpret the foreign reply where there is one.
#[derive(Clone, Copy, PartialEq, Eq, Structural, Debug)]
pub struct BrowserHost(pub usize);

impl BrowserHost {
    /// Request that the browser close; a true flag skips the unload prompt.
    /// Produced is the boundary call, or
    /// nothing when the slot is absent: the operation is then a silent
    /// no-op.
    pub fn close_browser(&self, heap: &BrowserHostHeap, force_close: bool) -> (a: Option<
        BrowserHostAction,
    >)
        requires
            heap.live(self.0 as int),
        ensures
            heap.at(self.0 as int).cefobj.slots.close_browser ==> a == Option::Some(
                (BrowserHostAction::CloseBrowser { force_close: if force_close { 1 } else { 0 } }),
            ),
            !heap.at(self.0 as int).cefobj.slots.close_browser ==> a is None,
    {
        let rc = heap.borrow(self.0);
        if rc.cefobj.slots.close_browser {
            Some(BrowserHostAction::CloseBrowser { force_close: if force_close { 1 } else { 0 } })
        } else {
            None
        }
    }

    /// Set whether the browser is focused.  Produced is the boundary call, or
    /// nothing when the slot is absent: the operation is then a silent
    /// no-op.
    pub fn set_focus(&self, heap: &BrowserHostHeap, focus: bool) -> (a: Option<
        BrowserHostAction,
    >)
        requires
            heap.live(self.0 as int),
        ensures
            heap.at(self.0 as int).cefobj.slots.set_focus ==> a == Option::Some(
                (BrowserHostAction::SetFocus { focus: if focus { 1 } else { 0 } }),
            ),
            !heap.at(self.0 as int).cefobj.slots.set_focus ==> a is None,
    {
        let rc = heap.borrow(self.0);
        if rc.cefobj.slots.set_focus {
            Some(BrowserHostAction::SetFocus { focus: if focus { 1 } else { 0 } })
        } else {
            None
        }
    }

    /// Print the current browser contents.  Produced is the boundary call, or
    /// nothing when the slot is absent: the operation is then a silent
    /// no-op.
    pub fn print(&self, heap: &BrowserHostHeap) -> (a: Option<
        BrowserHostAction,
    >)
        requires
            heap.live(self.0 as int),
        ensures
            heap.at(self.0 as int).cefobj.slots.print ==> a == Option::Some(BrowserHostAction::Print),
            !heap.at(self.0 as int).cefobj.slots.print ==> a is None,
    {
        let rc = heap.borrow(self.0);
        if rc.cefobj.slots.print {
            Some(BrowserHostAction::Print)
        } else {
            None
        }
    }

    /// Cancel all searches that are currently going on.  Produced is the
    /// boundary call, or
    /// nothing when the slot is absent: the operation is then a silent
    /// no-op.
    pub fn stop_finding(&self, heap: &BrowserHostHeap, clear_selection: bool) -> (a: Option<
        BrowserHostAction,
    >)
        requires
            heap.live(self.0 as int),
        ensures
            heap.at(self.0 as int).cefobj.slots.stop_finding ==> a == Option::Some(
                (BrowserHostAction::StopFinding { clear_selection: if clear_selection { 1 } else { 0 } }),
            ),
            !heap.at(self.0 as int).cefobj.slots.stop_finding ==> a is None,
    {
        let rc = heap.borrow(self.0);
        if rc.cefobj.slots.stop_finding {
            Some(BrowserHostAction::StopFinding { clear_selection: if clear_selection { 1 } else { 0 } })
        } else {
            None
        }
    }

    /// Explicitly close the associated developer-tools browser, if any.
    /// Produced is the boundary call, or
    /// nothing when the slot is absent: the operation is then a silent
    /// no-op.
    pub fn close_dev_tools(&self, heap: &BrowserHostHeap) -> (a: Option<
        BrowserHostAction,
    >)
        requires
            heap.live(self.0 as int),
        ensures
            heap.at(self.0 as int).cefobj.slots.close_dev_tools ==> a == Option::Some(BrowserHostAction::CloseDevTools),
            !heap.at(self.0 as int).cefobj.slots.close_dev_tools ==> a is None,
    {
        let rc = heap.borrow(self.0);
        if rc.cefobj.slots.close_dev_tools {
            Some(BrowserHostAction::CloseDevTools)
        } else {
            None
        }
    }

    /// Send a snapshot of the navigation entries to the visitor; a true
    /// flag sends only the current entry.  With the slot installed, the
    /// boundary call is produced and the visitor handle's unit of
    /// reference count crosses with the raw pointer to the foreign side.
    /// With the slot absent no call is made and the handle is dropped
    /// here, releasing its unit — the last unit destroys the visitor's
    /// container.
    pub fn get_navigation_entries<V: NavigationEntryVisitorCallback>(
        &self,
        heap: &BrowserHostHeap,
        visitor_heap: &mut NavigationEntryVisitorHeap<V>,
        visitor: NavigationEntryVisitor,
        current_only: bool,
    ) -> (a: Option<BrowserHostAction>)
        requires
            heap.live(self.0 as int),
            old(visitor_heap).wf(),
            old(visitor_heap).live(visitor.0 as int),
        ensures
            final(visitor_heap).wf(),
            heap.at(self.0 as int).cefobj.slots.get_navigation_entries ==> a == Option::Some(
                (BrowserHostAction::GetNavigationEntries {
                    visitor: visitor.0,
                    current_only: if current_only { 1 } else { 0 },
                }),
            ) && *final(visitor_heap) == *old(visitor_heap),
            !heap.at(self.0 as int).cefobj.slots.get_navigation_entries ==> a is None
                && final(visitor_heap).len() == old(visitor_heap).len()
                && (old(visitor_heap).count(visitor.0 as int) == 1 ==> !final(visitor_heap).live(
                visitor.0 as int,
            ))
                && (old(visitor_heap).count(visitor.0 as int) > 1 ==> final(visitor_heap).live(
                visitor.0 as int,
            ) && final(visitor_heap).count(visitor.0 as int) == old(visitor_heap).count(
                visitor.0 as int,
            ) - 1),
            forall|q: int|
                q != visitor.0 ==> (final(visitor_heap).live(q) <==> old(visitor_heap).live(q)),
            forall|q: int|
                final(visitor_heap).live(q) && q != visitor.0
                    ==> #[trigger] final(visitor_heap).at(q) == old(visitor_heap).at(q),
    {
        let rc = heap.borrow(self.0);
        if rc.cefobj.slots.get_navigation_entries {
            Some(
                BrowserHostAction::GetNavigationEntries {
                    visitor: visitor.0,
                    current_only: if current_only { 1 } else { 0 },
                },
            )
        } else {
            let _ = visitor_heap.release(visitor.0);
            None
        }
    }

    /// Set whether mouse cursor change is disabled.  Produced is the boundary
    /// call, or
    /// nothing when the slot is absent: the operation is then a silent
    /// no-op.
    pub fn set_mouse_cursor_change_disabled(&self, heap: &BrowserHostHeap, disabled: bool) -> (a: Option<
        BrowserHostAction,
    >)
        requires
            heap.live(self.0 as int),
        ensures
            heap.at(self.0 as int).cefobj.slots.set_mouse_cursor_change_disabled ==> a == Option::Some(
                (BrowserHostAction::SetMouseCursorChangeDisabled { disabled: if disabled { 1 } else { 0 } }),
            ),
            !heap.at(self.0 as int).cefobj.slots.set_mouse_cursor_change_disabled ==> a is None,
    {
        let rc = heap.borrow(self.0);
        if rc.cefobj.slots.set_mouse_cursor_change_disabled {
            Some(BrowserHostAction::SetMouseCursorChangeDisabled { disabled: if disabled { 1 } else { 0 } })
        } else {
            None
        }
    }

    /// Notify the browser that the widget has been resized.  Produced is the
    /// boundary call, or
    /// nothing when the slot is absent: the operation is then a silent
    /// no-op.
    pub fn was_resized(&self, heap: &BrowserHostHeap) -> (a: Option<
        BrowserHostAction,
    >)
        requires
            heap.live(self.0 as int),
        ensures
            heap.at(self.0 as int).cefobj.slots.was_resized ==> a == Option::Some(BrowserHostAction::WasResized),
            !heap.at(self.0 as int).cefobj.slots.was_resized ==> a is None,
    {
        let rc = heap.borrow(self.0);
        if rc.cefobj.slots.was_resized {
            Some(BrowserHostAction::WasResized)
        } else {
            None
        }
    }

    /// Notify the browser that it has been hidden or shown.  Produced is the
    /// boundary call, or
    /// nothing when the slot is absent: the operation is then a silent
    /// no-op.
    pub fn was_hidden(&self, heap: &BrowserHostHeap, hidden: bool) -> (a: Option<
        BrowserHostAction,
    >)
        requires
            heap.live(self.0 as int),
        ensures
            heap.at(self.0 as int).cefobj.slots.was_hidden ==> a == Option::Some(
                (BrowserHostAction::WasHidden { hidden: if hidden { 1 } else { 0 } }),
            ),
            !heap.at(self.0 as int).cefobj.slots.was_hidden ==> a is None,
    {
        let rc = heap.borrow(self.0);
        if rc.cefobj.slots.was_hidden {
            Some(BrowserHostAction::WasHidden { hidden: if hidden { 1 } else { 0 } })
        } else {
            None
        }
    }

    /// Notify the browser that the screen info has changed.  Produced is the
    /// boundary call, or
    /// nothing when the slot is absent: the operation is then a silent
    /// no-op.
    pub fn notify_screen_info_changed(&self, heap: &BrowserHostHeap) -> (a: Option<
        BrowserHostAction,
    >)
        requires
            heap.live(self.0 as int),
        ensures
            heap.at(self.0 as int).cefobj.slots.notify_screen_info_changed ==> a == Option::Some(BrowserHostAction::NotifyScreenInfoChanged),
            !heap.at(self.0 as int).cefobj.slots.notify_screen_info_changed ==> a is None,
    {
        let rc = heap.borrow(self.0);
        if rc.cefobj.slots.notify_screen_info_changed {
            Some(BrowserHostAction::NotifyScreenInfoChanged)
        } else {
            None
        }
    }

    /// Invalidate the view, so the foreign side repaints it.  Produced is the
    /// boundary call, or
    /// nothing when the slot is absent: the operation is then a silent
    /// no-op.
    pub fn invalidate(&self, heap: &BrowserHostHeap, element_type: PaintElementType) -> (a: Option<
        BrowserHostAction,
    >)
        requires
            heap.live(self.0 as int),
        ensures
            heap.at(self.0 as int).cefobj.slots.invalidate ==> a == Option::Some(
                (BrowserHostAction::Invalidate { element_type: element_type.code_spec() }),
            ),
            !heap.at(self.0 as int).cefobj.slots.invalidate ==> a is None,
    {
        let rc = heap.borrow(self.0);
        if rc.cefobj.slots.invalidate {
            Some(BrowserHostAction::Invalidate { element_type: element_type.code() })
        } else {
            None
        }
    }

    /// Issue an externally driven frame request.  Produced is the boundary
    /// call, or
    /// nothing when the slot is absent: the operation is then a silent
    /// no-op.
    pub fn send_external_begin_frame(&self, heap: &BrowserHostHeap) -> (a: Option<
        BrowserHostAction,
    >)
        requires
            heap.live(self.0 as int),
        ensures
            heap.at(self.0 as int).cefobj.slots.send_external_begin_frame ==> a == Option::Some(BrowserHostAction::SendExternalBeginFrame),
            !heap.at(self.0 as int).cefobj.slots.send_external_begin_frame ==> a is None,
    {
        let rc = heap.borrow(self.0);
        if rc.cefobj.slots.send_external_begin_frame {
            Some(BrowserHostAction::SendExternalBeginFrame)
        } else {
            None
        }
    }

    /// Send a mouse click event to the browser.  Produced is the boundary call,
    /// or
    /// nothing when the slot is absent: the operation is then a silent
    /// no-op.
    pub fn send_mouse_click_event(&self, heap: &BrowserHostHeap, event: &MouseEvent, button_type: MouseButtonType, mouse_up: bool, click_count: i32) -> (a: Option<
        BrowserHostAction,
    >)
        requires
            heap.live(self.0 as int),
        ensures
            heap.at(self.0 as int).cefobj.slots.send_mouse_click_event ==> a == Option::Some(
                (BrowserHostAction::SendMouseClickEvent { event: *event, button_type: button_type.code_spec(), mouse_up: if mouse_up { 1 } else { 0 }, click_count }),
            ),
            !heap.at(self.0 as int).cefobj.slots.send_mouse_click_event ==> a is None,
    {
        let rc = heap.borrow(self.0);
        if rc.cefobj.slots.send_mouse_click_event {
            Some(BrowserHostAction::SendMouseClickEvent { event: *event, button_type: button_type.code(), mouse_up: if mouse_up { 1 } else { 0 }, click_count })
        } else {
            None
        }
    }

    /// Send a mouse move event to the browser.  Produced is the boundary call,
    /// or
    /// nothing when the slot is absent: the operation is then a silent
    /// no-op.
    pub fn send_mouse_move_event(&self, heap: &BrowserHostHeap, event: &MouseEvent, mouse_leave: bool) -> (a: Option<
        BrowserHostAction,
    >)
        requires
            heap.live(self.0 as int),
        ensures
            heap.at(self.0 as int).cefobj.slots.send_mouse_move_event ==> a == Option::Some(
                (BrowserHostAction::SendMouseMoveEvent { event: *event, mouse_leave: if mouse_leave { 1 } else { 0 } }),
            ),
            !heap.at(self.0 as int).cefobj.slots.send_mouse_move_event ==> a is None,
    {
        let rc = heap.borrow(self.0);
        if rc.cefobj.slots.send_mouse_move_event {
            Some(BrowserHostAction::SendMouseMoveEvent { event: *event, mouse_leave: if mouse_leave { 1 } else { 0 } })
        } else {
            None
        }
    }

    /// Send a mouse wheel event to the browser.  Produced is the boundary call,
    /// or
    /// nothing when the slot is absent: the operation is then a silent
    /// no-op.
    pub fn send_mouse_wheel_event(&self, heap: &BrowserHostHeap, event: &MouseEvent, delta_x: i32, delta_y: i32) -> (a: Option<
        BrowserHostAction,
    >)
        requires
            heap.live(self.0 as int),
        ensures
            heap.at(self.0 as int).cefobj.slots.send_mouse_wheel_event ==> a == Option::Some(
                (BrowserHostAction::SendMouseWheelEvent { event: *event, delta_x, delta_y }),
            ),
            !heap.at(self.0 as int).cefobj.slots.send_mouse_wheel_event ==> a is None,
    {
        let rc = heap.borrow(self.0);
        if rc.cefobj.slots.send_mouse_wheel_event {
            Some(BrowserHostAction::SendMouseWheelEvent { event: *event, delta_x, delta_y })
        } else {
            None
        }
    }

    /// Send a focus event to the browser.  Produced is the boundary call, or
    /// nothing when the slot is absent: the operation is then a silent
    /// no-op.
    pub fn send_focus_event(&self, heap: &BrowserHostHeap, set_focus: bool) -> (a: Option<
        BrowserHostAction,
    >)
        requires
            heap.live(self.0 as int),
        ensures
            heap.at(self.0 as int).cefobj.slots.send_focus_event ==> a == Option::Some(
                (BrowserHostAction::SendFocusEvent { set_focus: if set_focus { 1 } else { 0 } }),
            ),
            !heap.at(self.0 as int).cefobj.slots.send_focus_event ==> a is None,
    {
        let rc = heap.borrow(self.0);
        if rc.cefobj.slots.send_focus_event {
            Some(BrowserHostAction::SendFocusEvent { set_focus: if set_focus { 1 } else { 0 } })
        } else {
            None
        }
    }

    /// Send a capture lost event to the browser.  Produced is the boundary
    /// call, or
    /// nothing when the slot is absent: the operation is then a silent
    /// no-op.
    pub fn send_capture_lost_event(&self, heap: &BrowserHostHeap) -> (a: Option<
        BrowserHostAction,
    >)
        requires
            heap.live(self.0 as int),
        ensures
            heap.at(self.0 as int).cefobj.slots.send_capture_lost_event ==> a == Option::Some(BrowserHostAction::SendCaptureLostEvent),
            !heap.at(self.0 as int).cefobj.slots.send_capture_lost_event ==> a is None,
    {
        let rc = heap.borrow(self.0);
        if rc.cefobj.slots.send_capture_lost_event {
            Some(BrowserHostAction::SendCaptureLostEvent)
        } else {
            None
        }
    }

    /// Notify the browser that the window hosting it is about to be moved
    /// or resized.  Produced is the boundary call, or
    /// nothing when the slot is absent: the operation is then a silent
    /// no-op.
    pub fn notify_move_or_resize_started(&self, heap: &BrowserHostHeap) -> (a: Option<
        BrowserHostAction,
    >)
        requires
            heap.live(self.0 as int),
        ensures
            heap.at(self.0 as int).cefobj.slots.notify_move_or_resize_started ==> a == Option::Some(BrowserHostAction::NotifyMoveOrResizeStarted),
            !heap.at(self.0 as int).cefobj.slots.notify_move_or_resize_started ==> a is None,
    {
        let rc = heap.borrow(self.0);
        if rc.cefobj.slots.notify_move_or_resize_started {
            Some(BrowserHostAction::NotifyMoveOrResizeStarted)
        } else {
            None
        }
    }

    /// Set the maximum repaint rate, in frames per second, for a
    /// windowless browser.  Produced is the boundary call, or
    /// nothing when the slot is absent: the operation is then a silent
    /// no-op.
    pub fn set_windowless_frame_rate(&self, heap: &BrowserHostHeap, frame_rate: i32) -> (a: Option<
        BrowserHostAction,
    >)
        requires
            heap.live(self.0 as int),
        ensures
            heap.at(self.0 as int).cefobj.slots.set_windowless_frame_rate ==> a == Option::Some(
                (BrowserHostAction::SetWindowlessFrameRate { frame_rate }),
            ),
            !heap.at(self.0 as int).cefobj.slots.set_windowless_frame_rate ==> a is None,
    {
        let rc = heap.borrow(self.0);
        if rc.cefobj.slots.set_windowless_frame_rate {
            Some(BrowserHostAction::SetWindowlessFrameRate { frame_rate })
        } else {
            None
        }
    }

    /// Complete the existing composition by applying the composition node
    /// contents.  Produced is the boundary call, or
    /// nothing when the slot is absent: the operation is then a silent
    /// no-op.
    pub fn ime_finish_composing_text(&self, heap: &BrowserHostHeap, keep_selection: bool) -> (a: Option<
        BrowserHostAction,
    >)
        requires
            heap.live(self.0 as int),
        ensures
            heap.at(self.0 as int).cefobj.slots.ime_finish_composing_text ==> a == Option::Some(
                (BrowserHostAction::ImeFinishComposingText { keep_selection: if keep_selection { 1 } else { 0 } }),
            ),
            !heap.at(self.0 as int).cefobj.slots.ime_finish_composing_text ==> a is None,
    {
        let rc = heap.borrow(self.0);
        if rc.cefobj.slots.ime_finish_composing_text {
            Some(BrowserHostAction::ImeFinishComposingText { keep_selection: if keep_selection { 1 } else { 0 } })
        } else {
            None
        }
    }

    /// Cancel the existing composition and discard the composition node
    /// contents.  Produced is the boundary call, or
    /// nothing when the slot is absent: the operation is then a silent
    /// no-op.
    pub fn ime_cancel_composition(&self, heap: &BrowserHostHeap) -> (a: Option<
        BrowserHostAction,
    >)
        requires
            heap.live(self.0 as int),
        ensures
            heap.at(self.0 as int).cefobj.slots.ime_cancel_composition ==> a == Option::Some(BrowserHostAction::ImeCancelComposition),
            !heap.at(self.0 as int).cefobj.slots.ime_cancel_composition ==> a is None,
    {
        let rc = heap.borrow(self.0);
        if rc.cefobj.slots.ime_cancel_composition {
            Some(BrowserHostAction::ImeCancelComposition)
        } else {
            None
        }
    }

    /// Report that the user dragged the mouse into the web view.  Produced is
    /// the boundary call, or
    /// nothing when the slot is absent: the operation is then a silent
    /// no-op.
    pub fn drag_target_drag_enter(&self, heap: &BrowserHostHeap, drag_data: DragData, event: &MouseEvent, allowed_ops: DragOperation) -> (a: Option<
        BrowserHostAction,
    >)
        requires
            heap.live(self.0 as int),
        ensures
            heap.at(self.0 as int).cefobj.slots.drag_target_drag_enter ==> a == Option::Some(
                (BrowserHostAction::DragTargetDragEnter { drag_data: drag_data.ptr, event: *event, allowed_ops: allowed_ops.bits }),
            ),
            !heap.at(self.0 as int).cefobj.slots.drag_target_drag_enter ==> a is None,
    {
        let rc = heap.borrow(self.0);
        if rc.cefobj.slots.drag_target_drag_enter {
            Some(BrowserHostAction::DragTargetDragEnter { drag_data: drag_data.ptr, event: *event, allowed_ops: allowed_ops.bits })
        } else {
            None
        }
    }

    /// Report mouse movement across the web view during a drag.  Produced is
    /// the boundary call, or
    /// nothing when the slot is absent: the operation is then a silent
    /// no-op.
    pub fn drag_target_drag_over(&self, heap: &BrowserHostHeap, event: &MouseEvent, allowed_ops: DragOperation) -> (a: Option<
        BrowserHostAction,
    >)
        requires
            heap.live(self.0 as int),
        ensures
            heap.at(self.0 as int).cefobj.slots.drag_target_drag_over ==> a == Option::Some(
                (BrowserHostAction::DragTargetDragOver { event: *event, allowed_ops: allowed_ops.bits }),
            ),
            !heap.at(self.0 as int).cefobj.slots.drag_target_drag_over ==> a is None,
    {
        let rc = heap.borrow(self.0);
        if rc.cefobj.slots.drag_target_drag_over {
            Some(BrowserHostAction::DragTargetDragOver { event: *event, allowed_ops: allowed_ops.bits })
        } else {
            None
        }
    }

    /// Report that the user dragged the mouse out of the web view.  Produced is
    /// the boundary call, or
    /// nothing when the slot is absent: the operation is then a silent
    /// no-op.
    pub fn drag_target_drag_leave(&self, heap: &BrowserHostHeap) -> (a: Option<
        BrowserHostAction,
    >)
        requires
            heap.live(self.0 as int),
        ensures
            heap.at(self.0 as int).cefobj.slots.drag_target_drag_leave ==> a == Option::Some(BrowserHostAction::DragTargetDragLeave),
            !heap.at(self.0 as int).cefobj.slots.drag_target_drag_leave ==> a is None,
    {
        let rc = heap.borrow(self.0);
        if rc.cefobj.slots.drag_target_drag_leave {
            Some(BrowserHostAction::DragTargetDragLeave)
        } else {
            None
        }
    }

    /// Report that the user dropped the dragged object onto the web view.
    /// Produced is the boundary call, or
    /// nothing when the slot is absent: the operation is then a silent
    /// no-op.
    pub fn drag_target_drop(&self, heap: &BrowserHostHeap, event: &MouseEvent) -> (a: Option<
        BrowserHostAction,
    >)
        requires
            heap.live(self.0 as int),
        ensures
            heap.at(self.0 as int).cefobj.slots.drag_target_drop ==> a == Option::Some(
                (BrowserHostAction::DragTargetDrop { event: *event }),
            ),
            !heap.at(self.0 as int).cefobj.slots.drag_target_drop ==> a is None,
    {
        let rc = heap.borrow(self.0);
        if rc.cefobj.slots.drag_target_drop {
            Some(BrowserHostAction::DragTargetDrop { event: *event })
        } else {
            None
        }
    }

    /// Report that the drag operation started in this view ended in a drop
    /// or was cancelled.  Produced is the boundary call, or
    /// nothing when the slot is absent: the operation is then a silent
    /// no-op.
    pub fn drag_source_ended_at(&self, heap: &BrowserHostHeap, x: i32, y: i32, op: DragOperation) -> (a: Option<
        BrowserHostAction,
    >)
        requires
            heap.live(self.0 as int),
        ensures
            heap.at(self.0 as int).cefobj.slots.drag_source_ended_at ==> a == Option::Some(
                (BrowserHostAction::DragSourceEndedAt { x, y, op: op.bits }),
            ),
            !heap.at(self.0 as int).cefobj.slots.drag_source_ended_at ==> a is None,
    {
        let rc = heap.borrow(self.0);
        if rc.cefobj.slots.drag_source_ended_at {
            Some(BrowserHostAction::DragSourceEndedAt { x, y, op: op.bits })
        } else {
            None
        }
    }

    /// Report that the drag operation started in this view has completed.
    /// Produced is the boundary call, or
    /// nothing when the slot is absent: the operation is then a silent
    /// no-op.
    pub fn drag_source_system_drag_ended(&self, heap: &BrowserHostHeap) -> (a: Option<
        BrowserHostAction,
    >)
        requires
            heap.live(self.0 as int),
        ensures
            heap.at(self.0 as int).cefobj.slots.drag_source_system_drag_ended ==> a == Option::Some(BrowserHostAction::DragSourceSystemDragEnded),
            !heap.at(self.0 as int).cefobj.slots.drag_source_system_drag_ended ==> a is None,
    {
        let rc = heap.borrow(self.0);
        if rc.cefobj.slots.drag_source_system_drag_ended {
            Some(BrowserHostAction::DragSourceSystemDragEnded)
        } else {
            None
        }
    }

    /// Set the accessibility state for all frames.  Produced is the boundary
    /// call, or
    /// nothing when the slot is absent: the operation is then a silent
    /// no-op.
    pub fn set_accessibility_state(&self, heap: &BrowserHostHeap, accessibility_state: State) -> (a: Option<
        BrowserHostAction,
    >)
        requires
            heap.live(self.0 as int),
        ensures
            heap.at(self.0 as int).cefobj.slots.set_accessibility_state ==> a == Option::Some(
                (BrowserHostAction::SetAccessibilityState { accessibility_state: accessibility_state.code_spec() }),
            ),
            !heap.at(self.0 as int).cefobj.slots.set_accessibility_state ==> a is None,
    {
        let rc = heap.borrow(self.0);
        if rc.cefobj.slots.set_accessibility_state {
            Some(BrowserHostAction::SetAccessibilityState { accessibility_state: accessibility_state.code() })
        } else {
            None
        }
    }

    /// Enable or disable auto-resize notifications, bounded by the given
    /// sizes.  Produced is the boundary call, or
    /// nothing when the slot is absent: the operation is then a silent
    /// no-op.
    pub fn set_auto_resize_enabled(&self, heap: &BrowserHostHeap, enabled: bool, min_size: &Size, max_size: &Size) -> (a: Option<
        BrowserHostAction,
    >)
        requires
            heap.live(self.0 as int),
        ensures
            heap.at(self.0 as int).cefobj.slots.set_auto_resize_enabled ==> a == Option::Some(
                (BrowserHostAction::SetAutoResizeEnabled { enabled: if enabled { 1 } else { 0 }, min_size: *min_size, max_size: *max_size }),
            ),
            !heap.at(self.0 as int).cefobj.slots.set_auto_resize_enabled ==> a is None,
    {
        let rc = heap.borrow(self.0);
        if rc.cefobj.slots.set_auto_resize_enabled {
            Some(BrowserHostAction::SetAutoResizeEnabled { enabled: if enabled { 1 } else { 0 }, min_size: *min_size, max_size: *max_size })
        } else {
            None
        }
    }

    /// Set whether the browser's audio is muted.  Produced is the boundary
    /// call, or
    /// nothing when the slot is absent: the operation is then a silent
    /// no-op.
    pub fn set_audio_muted(&self, heap: &BrowserHostHeap, mute: bool) -> (a: Option<
        BrowserHostAction,
    >)
        requires
            heap.live(self.0 as int),
        ensures
            heap.at(self.0 as int).cefobj.slots.set_audio_muted ==> a == Option::Some(
                (BrowserHostAction::SetAudioMuted { mute: if mute { 1 } else { 0 } }),
            ),
            !heap.at(self.0 as int).cefobj.slots.set_audio_muted ==> a is None,
    {
        let rc = heap.borrow(self.0);
        if rc.cefobj.slots.set_audio_muted {
            Some(BrowserHostAction::SetAudioMuted { mute: if mute { 1 } else { 0 } })
        } else {
            None
        }
    }

}

impl BrowserHost {
    /// Try to close the browser from a top-level close handler: false while
    /// the close is pending, true once it has completed.  `reply` is what the
    /// installed slot answered; with the slot absent it is ignored and the
    /// documented default, false, is returned.
    pub fn try_close_browser(&self, heap: &BrowserHostHeap, reply: i32) -> (r: bool)
        requires
            heap.live(self.0 as int),
        ensures
            heap.at(self.0 as int).cefobj.slots.try_close_browser ==> r == (reply != 0),
            !heap.at(self.0 as int).cefobj.slots.try_close_browser ==> r == false,
    {
        let rc = heap.borrow(self.0);
        if rc.cefobj.slots.try_close_browser {
            reply != 0
        } else {
            false
        }
    }

    /// Whether this browser is wrapped in a view.  `reply` is what the
    /// installed slot answered; with the slot absent it is ignored and the
    /// documented default, false, is returned.
    pub fn has_view(&self, heap: &BrowserHostHeap, reply: i32) -> (r: bool)
        requires
            heap.live(self.0 as int),
        ensures
            heap.at(self.0 as int).cefobj.slots.has_view ==> r == (reply != 0),
            !heap.at(self.0 as int).cefobj.slots.has_view ==> r == false,
    {
        let rc = heap.borrow(self.0);
        if rc.cefobj.slots.has_view {
            reply != 0
        } else {
            false
        }
    }

    /// Whether this browser currently has an associated developer-tools
    /// browser.  `reply` is what the
    /// installed slot answered; with the slot absent it is ignored and the
    /// documented default, false, is returned.
    pub fn has_dev_tools(&self, heap: &BrowserHostHeap, reply: i32) -> (r: bool)
        requires
            heap.live(self.0 as int),
        ensures
            heap.at(self.0 as int).cefobj.slots.has_dev_tools ==> r == (reply != 0),
            !heap.at(self.0 as int).cefobj.slots.has_dev_tools ==> r == false,
    {
        let rc = heap.borrow(self.0);
        if rc.cefobj.slots.has_dev_tools {
            reply != 0
        } else {
            false
        }
    }

    /// Whether mouse cursor change is disabled.  `reply` is what the
    /// installed slot answered; with the slot absent it is ignored and the
    /// documented default, false, is returned.
    pub fn is_mouse_cursor_change_disabled(&self, heap: &BrowserHostHeap, reply: i32) -> (r: bool)
        requires
            heap.live(self.0 as int),
        ensures
            heap.at(self.0 as int).cefobj.slots.is_mouse_cursor_change_disabled ==> r == (reply != 0),
            !heap.at(self.0 as int).cefobj.slots.is_mouse_cursor_change_disabled ==> r == false,
    {
        let rc = heap.borrow(self.0);
        if rc.cefobj.slots.is_mouse_cursor_change_disabled {
            reply != 0
        } else {
            false
        }
    }

    /// Whether window rendering is disabled.  `reply` is what the
    /// installed slot answered; with the slot absent it is ignored and the
    /// documented default, false, is returned.
    pub fn is_window_rendering_disabled(&self, heap: &BrowserHostHeap, reply: i32) -> (r: bool)
        requires
            heap.live(self.0 as int),
        ensures
            heap.at(self.0 as int).cefobj.slots.is_window_rendering_disabled ==> r == (reply != 0),
            !heap.at(self.0 as int).cefobj.slots.is_window_rendering_disabled ==> r == false,
    {
        let rc = heap.borrow(self.0);
        if rc.cefobj.slots.is_window_rendering_disabled {
            reply != 0
        } else {
            false
        }
    }

    /// Whether this browser is hosting an extension background script.  `reply`
    /// is what the
    /// installed slot answered; with the slot absent it is ignored and the
    /// documented default, false, is returned.
    pub fn is_background_host(&self, heap: &BrowserHostHeap, reply: i32) -> (r: bool)
        requires
            heap.live(self.0 as int),
        ensures
            heap.at(self.0 as int).cefobj.slots.is_background_host ==> r == (reply != 0),
            !heap.at(self.0 as int).cefobj.slots.is_background_host ==> r == false,
    {
        let rc = heap.borrow(self.0);
        if rc.cefobj.slots.is_background_host {
            reply != 0
        } else {
            false
        }
    }

    /// Whether the browser's audio is muted.  `reply` is what the
    /// installed slot answered; with the slot absent it is ignored and the
    /// documented default, false, is returned.
    pub fn is_audio_muted(&self, heap: &BrowserHostHeap, reply: i32) -> (r: bool)
        requires
            heap.live(self.0 as int),
        ensures
            heap.at(self.0 as int).cefobj.slots.is_audio_muted ==> r == (reply != 0),
            !heap.at(self.0 as int).cefobj.slots.is_audio_muted ==> r == false,
    {
        let rc = heap.borrow(self.0);
        if rc.cefobj.slots.is_audio_muted {
            reply != 0
        } else {
            false
        }
    }

    /// The maximum repaint rate of a windowless browser.  `reply` is what
    /// the installed slot answered; with the slot absent it is ignored and
    /// the documented default, 30, is returned.
    pub fn get_windowless_frame_rate(&self, heap: &BrowserHostHeap, reply: i32) -> (r: i32)
        requires
            heap.live(self.0 as int),
        ensures
            heap.at(self.0 as int).cefobj.slots.get_windowless_frame_rate ==> r == reply,
            !heap.at(self.0 as int).cefobj.slots.get_windowless_frame_rate ==> r == 30,
    {
        let rc = heap.borrow(self.0);
        if rc.cefobj.slots.get_windowless_frame_rate {
            reply
        } else {
            30
        }
    }

    /// The hosted browser object, rewrapped from the non-null pointer the
    /// mandatory slot answered.
    pub fn get_browser(&self, heap: &BrowserHostHeap, reply: usize) -> (r: Browser)
        requires
            heap.live(self.0 as int),
            heap.at(self.0 as int).cefobj.slots.get_browser,
            reply != 0,
        ensures
            r.ptr == reply,
    {
        Browser { ptr: reply }
    }

    /// The client of this browser, or nothing when the mandatory slot
    /// answered the null pointer.
    pub fn get_client(&self, heap: &BrowserHostHeap, reply: usize) -> (r: Option<Client>)
        requires
            heap.live(self.0 as int),
            heap.at(self.0 as int).cefobj.slots.get_client,
        ensures
            reply == 0 ==> r is None,
            reply != 0 ==> r == Option::Some((Client { ptr: reply })),
    {
        if reply != 0 {
            Some(Client { ptr: reply })
        } else {
            None
        }
    }

    /// The request context of this browser, rewrapped from the non-null
    /// pointer the mandatory slot answered.
    pub fn get_request_context(&self, heap: &BrowserHostHeap, reply: usize) -> (r: RequestContext)
        requires
            heap.live(self.0 as int),
            heap.at(self.0 as int).cefobj.slots.get_request_context,
            reply != 0,
        ensures
            r.ptr == reply,
    {
        RequestContext { ptr: reply }
    }

    /// The currently visible navigation entry, rewrapped from the
    /// non-null pointer the mandatory slot answered.
    pub fn get_visible_navigation_entry(&self, heap: &BrowserHostHeap, reply: usize) -> (r:
        NavigationEntry)
        requires
            heap.live(self.0 as int),
            heap.at(self.0 as int).cefobj.slots.get_visible_navigation_entry,
            reply != 0,
        ensures
            r.ptr == reply,
    {
        NavigationEntry { ptr: reply }
    }

    /// The extension hosted in this browser, if the slot is installed and
    /// answered a non-null pointer; nothing otherwise.
    pub fn get_extension(&self, heap: &BrowserHostHeap, reply: usize) -> (r: Option<Extension>)
        requires
            heap.live(self.0 as int),
        ensures
            !heap.at(self.0 as int).cefobj.slots.get_extension ==> r is None,
            heap.at(self.0 as int).cefobj.slots.get_extension && reply == 0 ==> r is None,
            heap.at(self.0 as int).cefobj.slots.get_extension && reply != 0 ==> r
                == Option::Some((Extension { ptr: reply })),
    {
        let rc = heap.borrow(self.0);
        if rc.cefobj.slots.get_extension && reply != 0 {
            Some(Extension { ptr: reply })
        } else {
            None
        }
    }

    /// Download the file at `url`.  Produced is the boundary call, or
    /// nothing when the slot is absent: the operation is then a silent
    /// no-op.
    pub fn start_download(&self, heap: &BrowserHostHeap, url: &str) -> (a: Option<
        BrowserHostAction,
    >)
        requires
            heap.live(self.0 as int),
        ensures
            heap.at(self.0 as int).cefobj.slots.start_download ==> ({
                &&& a matches Option::Some(BrowserHostAction::StartDownload { url: u })
                &&& u@ == url@
            }),
            !heap.at(self.0 as int).cefobj.slots.start_download ==> a is None,
    {
        let rc = heap.borrow(self.0);
        if rc.cefobj.slots.start_download {
            Some(BrowserHostAction::StartDownload { url: url.to_owned() })
        } else {
            None
        }
    }

    /// Replace the currently selected misspelled word with `word`.
    /// Produced is the boundary call, or nothing when the slot is absent.
    pub fn replace_misspelling(&self, heap: &BrowserHostHeap, word: &str) -> (a: Option<
        BrowserHostAction,
    >)
        requires
            heap.live(self.0 as int),
        ensures
            heap.at(self.0 as int).cefobj.slots.replace_misspelling ==> ({
                &&& a matches Option::Some(BrowserHostAction::ReplaceMisspelling { word: w })
                &&& w@ == word@
            }),
            !heap.at(self.0 as int).cefobj.slots.replace_misspelling ==> a is None,
    {
        let rc = heap.borrow(self.0);
        if rc.cefobj.slots.replace_misspelling {
            Some(BrowserHostAction::ReplaceMisspelling { word: word.to_owned() })
        } else {
            None
        }
    }

    /// Add `word` to the spelling dictionary.  Produced is the boundary
    /// call, or nothing when the slot is absent.
    pub fn add_word_to_dictionary(&self, heap: &BrowserHostHeap, word: &str) -> (a: Option<
        BrowserHostAction,
    >)
        requires
            heap.live(self.0 as int),
        ensures
            heap.at(self.0 as int).cefobj.slots.add_word_to_dictionary ==> ({
                &&& a matches Option::Some(BrowserHostAction::AddWordToDictionary { word: w })
                &&& w@ == word@
            }),
            !heap.at(self.0 as int).cefobj.slots.add_word_to_dictionary ==> a is None,
    {
        let rc = heap.borrow(self.0);
        if rc.cefobj.slots.add_word_to_dictionary {
            Some(BrowserHostAction::AddWordToDictionary { word: word.to_owned() })
        } else {
            None
        }
    }

    /// Search for `search_text` within the page.  Produced is the boundary
    /// call, with the flags as 0-or-1 integers, or nothing when the slot
    /// is absent.
    pub fn find(
        &self,
        heap: &BrowserHostHeap,
        identifier: i32,
        search_text: &str,
        forward: bool,
        match_case: bool,
        find_next: bool,
    ) -> (a: Option<BrowserHostAction>)
        requires
            heap.live(self.0 as int),
        ensures
            heap.at(self.0 as int).cefobj.slots.find ==> ({
                &&& a matches Option::Some(BrowserHostAction::Find {
                    identifier: id,
                    search_text: s,
                    forward: fw,
                    match_case: mc,
                    find_next: fnx,
                })
                &&& id == identifier
                &&& s@ == search_text@
                &&& fw == if forward { 1int } else { 0int }
                &&& mc == if match_case { 1int } else { 0int }
                &&& fnx == if find_next { 1int } else { 0int }
            }),
            !heap.at(self.0 as int).cefobj.slots.find ==> a is None,
    {
        let rc = heap.borrow(self.0);
        if rc.cefobj.slots.find {
            Some(
                BrowserHostAction::Find {
                    identifier,
                    search_text: search_text.to_owned(),
                    forward: if forward { 1 } else { 0 },
                    match_case: if match_case { 1 } else { 0 },
                    find_next: if find_next { 1 } else { 0 },
                },
            )
        } else {
            None
        }
    }

    /// Complete the existing composition, optionally inserting `text` and
    /// replacing `replacement_range`.  Produced is the boundary call, or
    /// nothing when the slot is absent.
    pub fn ime_commit_text(
        &self,
        heap: &BrowserHostHeap,
        text: Option<&str>,
        replacement_range: Option<&Range>,
        relative_cursor_pos: i32,
    ) -> (a: Option<BrowserHostAction>)
        requires
            heap.live(self.0 as int),
        ensures
            heap.at(self.0 as int).cefobj.slots.ime_commit_text ==> ({
                &&& a matches Option::Some(BrowserHostAction::ImeCommitText {
                    text: t,
                    replacement_range: rr,
                    relative_cursor_pos: pos,
                })
                &&& match (t, text) {
                    (Option::Some(ts), Option::Some(orig)) => ts@ == orig@,
                    (Option::None, Option::None) => true,
                    _ => false,
                }
                &&& match (rr, replacement_range) {
                    (Option::Some(r1), Option::Some(r2)) => r1 == *r2,
                    (Option::None, Option::None) => true,
                    _ => false,
                }
                &&& pos == relative_cursor_pos
            }),
            !heap.at(self.0 as int).cefobj.slots.ime_commit_text ==> a is None,
    {
        let rc = heap.borrow(self.0);
        if rc.cefobj.slots.ime_commit_text {
            let text_owned = match text {
                Some(t) => Some(t.to_owned()),
                None => None,
            };
            let range_owned = match replacement_range {
                Some(r) => Some(*r),
                None => None,
            };
            Some(
                BrowserHostAction::ImeCommitText {
                    text: text_owned,
                    replacement_range: range_owned,
                    relative_cursor_pos,
                },
            )
        } else {
            None
        }
    }

    /// Send a function call message over the developer-tools protocol.
    /// With the slot installed, the boundary call is produced and the
    /// second component reports whether it accepted the message for
    /// validation; with it absent, no call is made and the answer is the
    /// documented default, false.
    pub fn send_dev_tools_message(&self, heap: &BrowserHostHeap, message: Vec<u8>, reply: i32) -> (r:
        (Option<BrowserHostAction>, bool))
        requires
            heap.live(self.0 as int),
        ensures
            heap.at(self.0 as int).cefobj.slots.send_dev_tools_message ==> ({
                &&& r.0 matches Option::Some(BrowserHostAction::SendDevToolsMessage { message: m })
                &&& m@ == message@
                &&& r.1 == (reply != 0)
            }),
            !heap.at(self.0 as int).cefobj.slots.send_dev_tools_message ==> r.0 is None && r.1
                == false,
    {
        let rc = heap.borrow(self.0);
        if rc.cefobj.slots.send_dev_tools_message {
            (Some(BrowserHostAction::SendDevToolsMessage { message }), reply != 0)
        } else {
            (None, false)
        }
    }

    /// Execute a function call over the developer-tools protocol.  An
    /// absent parameter dictionary crosses as the null pointer.  With the
    /// slot installed, the boundary call is produced and the second
    /// component reports whether it accepted the call; with it absent, no
    /// call is made and the answer is the documented default, false.
    pub fn execute_dev_tools_method(
        &self,
        heap: &BrowserHostHeap,
        message_id: i32,
        method: &str,
        params: Option<DictionaryValue>,
        reply: i32,
    ) -> (r: (Option<BrowserHostAction>, bool))
        requires
            heap.live(self.0 as int),
        ensures
            heap.at(self.0 as int).cefobj.slots.execute_dev_tools_method ==> ({
                &&& r.0 matches Option::Some(BrowserHostAction::ExecuteDevToolsMethod {
                    message_id: id,
                    method: m,
                    params: p,
                })
                &&& id == message_id
                &&& m@ == method@
                &&& p == (match params {
                    Option::Some(d) => d.ptr,
                    Option::None => 0usize,
                })
                &&& r.1 == (reply != 0)
            }),
            !heap.at(self.0 as int).cefobj.slots.execute_dev_tools_method ==> r.0 is None && r.1
                == false,
    {
        let rc = heap.borrow(self.0);
        if rc.cefobj.slots.execute_dev_tools_method {
            let params_ptr: usize = match params {
                Some(d) => d.ptr,
                None => 0,
            };
            (
                Some(
                    BrowserHostAction::ExecuteDevToolsMethod {
                        message_id,
                        method: method.to_owned(),
                        params: params_ptr,
                    },
                ),
                reply != 0,
            )
        } else {
            (None, false)
        }
    }

    /// Register an observer for developer-tools protocol messages.  With
    /// the slot installed, the boundary call is produced and the
    /// registration is rewrapped from the non-null pointer the slot
    /// answered; with it absent, no call is made and no registration
    /// exists.
    pub fn add_dev_tools_message_observer(
        &self,
        heap: &BrowserHostHeap,
        observer: DevToolsMessageObserver,
        reply: usize,
    ) -> (r: (Option<BrowserHostAction>, Option<Registration>))
        requires
            heap.live(self.0 as int),
            heap.at(self.0 as int).cefobj.slots.add_dev_tools_message_observer ==> reply != 0,
        ensures
            heap.at(self.0 as int).cefobj.slots.add_dev_tools_message_observer ==> r.0
                == Option::Some(
                (BrowserHostAction::AddDevToolsMessageObserver { observer: observer.ptr }),
            ) && r.1 == Option::Some((Registration { ptr: reply })),
            !heap.at(self.0 as int).cefobj.slots.add_dev_tools_message_observer ==> r.0 is None
                && r.1 is None,
    {
        let rc = heap.borrow(self.0);
        if rc.cefobj.slots.add_dev_tools_message_observer {
            (
                Some(BrowserHostAction::AddDevToolsMessageObserver { observer: observer.ptr }),
                Some(Registration { ptr: reply }),
            )
        } else {
            (None, None)
        }
    }
}


/// The function table of a file-dialog completion callback.
pub struct RunFileDialogCallbackVtable {
    pub base: BaseRefCounted,
    pub on_file_dialog_dismissed: bool,
}

impl RefCounter for RunFileDialogCallbackVtable {
    open spec fn base(&self) -> BaseRefCounted {
        self.base
    }

    open spec fn with_base(&self, base: BaseRefCounted) -> RunFileDialogCallbackVtable {
        RunFileDialogCallbackVtable { base, ..*self }
    }

    fn set_base(&mut self, base: BaseRefCounted) {
        self.base = base;
    }
}

/// The converted argument pair a file-dialog completion closure is invoked
/// with: the selected filter index reread as a count, and the chosen paths
/// unless the selection was cancelled.
pub open spec fn run_file_dialog_args(
    selected_accept_filter: i32,
    file_paths: Option<Vec<String>>,
) -> (usize, Option<Vec<String>>) {
    (selected_accept_filter as usize, file_paths)
}

/// A one-shot completion closure for a file chooser dialog, invoked with
/// the selected filter index and the chosen paths, or nothing if the
/// selection was cancelled.
pub struct RunFileDialogCallbackWrapper<F> {
    pub callback: OneShotCell<F>,
}

/// The heap of wrapped file-dialog callbacks.
pub type RunFileDialogCallbackHeap<F> = Heap<
    RunFileDialogCallbackVtable,
    RunFileDialogCallbackWrapper<F>,
>;

impl<F: FnOnce(usize, Option<Vec<String>>)> RunFileDialogCallbackWrapper<F> {
    /// Arm a fresh cell with the completion closure.
    pub fn new(callback: F) -> (w: RunFileDialogCallbackWrapper<F>)
        ensures
            w.callback.contents() == Option::Some(callback),
    {
        RunFileDialogCallbackWrapper { callback: OneShotCell::new(callback) }
    }

    /// Build the function table with the completion slot installed and
    /// move the cell into a fresh container.
    pub fn wrap(self, heap: &mut RunFileDialogCallbackHeap<F>) -> (h: RefCountedPtr)
        requires
            old(heap).wf(),
        ensures
            final(heap).wf(),
            h.ptr == old(heap).len(),
            final(heap).len() == old(heap).len() + 1,
            final(heap).live(h.ptr as int),
            final(heap).count(h.ptr as int) == 1,
            final(heap).at(h.ptr as int).object == self,
            final(heap).at(h.ptr as int).cefobj.base().fully_installed(),
            final(heap).at(h.ptr as int).cefobj.base().size == core::mem::size_of::<
                RunFileDialogCallbackVtable,
            >(),
            final(heap).at(h.ptr as int).cefobj.on_file_dialog_dismissed,
            forall|q: int| q != h.ptr ==> (final(heap).live(q) <==> old(heap).live(q)),
            forall|q: int|
                final(heap).live(q) && q != h.ptr ==> #[trigger] final(heap).at(q) == old(
                    heap,
                ).at(q),
    {
        let vtable = RunFileDialogCallbackVtable {
            base: BaseRefCounted::zeroed(),
            on_file_dialog_dismissed: true,
        };
        let size = core::mem::size_of::<RunFileDialogCallbackVtable>();
        heap.wrap(vtable, self, size)
    }

    /// Trampoline for the dismissal slot.  The filter index crosses as a
    /// plain integer and is reread as a count, as the wire format
    /// prescribes; a cancelled selection arrives as the absence of paths.
    /// The first invocation runs the closure; later ones find the cell
    /// empty and do nothing.
    pub fn file_dialog_dismissed(
        heap: &mut RunFileDialogCallbackHeap<F>,
        self_raw: usize,
        selected_accept_filter: i32,
        file_paths: Option<Vec<String>>,
    )
        requires
            old(heap).wf(),
            old(heap).live(self_raw as int),
            forall|f: F|
                old(heap).at(self_raw as int).object.callback.contents() == Option::Some(f)
                    ==> #[trigger] call_requires(
                    f,
                    run_file_dialog_args(selected_accept_filter, file_paths),
                ),
        ensures
            final(heap).wf(),
            final(heap).same_counts(*old(heap)),
            final(heap).live(self_raw as int),
            !final(heap).at(self_raw as int).object.callback.armed(),
            forall|f: F|
                old(heap).at(self_raw as int).object.callback.contents() == Option::Some(f)
                    ==> #[trigger] call_ensures(
                    f,
                    run_file_dialog_args(selected_accept_filter, file_paths),
                    (),
                ),
            forall|q: int|
                final(heap).live(q) && q != self_raw ==> #[trigger] final(heap).at(q) == old(
                    heap,
                ).at(q),
    {
        let o = heap.object_mut(self_raw);
        let taken = o.callback.take();
        proof {
            lemma_wf_preserved(*old(heap), *heap);
        }
        #[verifier::truncate]
        let index: usize = selected_accept_filter as usize;
        match taken {
            Some(callback) => {
                proof {
                    assert(call_requires(
                        callback,
                        run_file_dialog_args(selected_accept_filter, file_paths),
                    ));
                    assert(run_file_dialog_args(selected_accept_filter, file_paths) == (
                        index,
                        file_paths,
                    ));
                }
                callback(index, file_paths)
            },
            None => (),
        }
    }
}

impl BrowserHost {
    /// Run a file chooser dialog, wrapping the completion closure into a
    /// one-shot container whose pointer crosses with the call.  Produced
    /// is the boundary call, or nothing when the slot is absent: the
    /// closure is then discarded without firing, and no container is
    /// allocated.
    pub fn run_file_dialog<F: FnOnce(usize, Option<Vec<String>>)>(
        &self,
        heap: &BrowserHostHeap,
        cb_heap: &mut RunFileDialogCallbackHeap<F>,
        mode: FileDialogMode,
        title: Option<&str>,
        default_file_path: Option<&str>,
        accept_filters: Vec<String>,
        selected_accept_filter: i32,
        callback: F,
    ) -> (a: Option<BrowserHostAction>)
        requires
            heap.live(self.0 as int),
            old(cb_heap).wf(),
        ensures
            final(cb_heap).wf(),
            heap.at(self.0 as int).cefobj.slots.run_file_dialog ==> ({
                &&& a matches Option::Some(BrowserHostAction::RunFileDialog {
                    mode: m,
                    title: t,
                    default_file_path: d,
                    accept_filters: filters,
                    selected_accept_filter: sel,
                    callback: c,
                })
                &&& m == mode.code_spec()
                &&& match (t, title) {
                    (Option::Some(ts), Option::Some(orig)) => ts@ == orig@,
                    (Option::None, Option::None) => true,
                    _ => false,
                }
                &&& match (d, default_file_path) {
                    (Option::Some(ds), Option::Some(orig)) => ds@ == orig@,
                    (Option::None, Option::None) => true,
                    _ => false,
                }
                &&& filters == accept_filters
                &&& sel == selected_accept_filter
                &&& c == old(cb_heap).len()
                &&& final(cb_heap).len() == old(cb_heap).len() + 1
                &&& final(cb_heap).live(c as int)
                &&& final(cb_heap).count(c as int) == 1
                &&& final(cb_heap).at(c as int).object.callback.contents() == Option::Some(
                    callback,
                )
                &&& final(cb_heap).at(c as int).cefobj.on_file_dialog_dismissed
            }),
            !heap.at(self.0 as int).cefobj.slots.run_file_dialog ==> a is None && *final(cb_heap)
                == *old(cb_heap),
    {
        let rc = heap.borrow(self.0);
        if rc.cefobj.slots.run_file_dialog {
            let w = RunFileDialogCallbackWrapper::new(callback);
            let h = w.wrap(cb_heap);
            let title_owned = match title {
                Some(t) => Some(t.to_owned()),
                None => None,
            };
            let path_owned = match default_file_path {
                Some(p) => Some(p.to_owned()),
                None => None,
            };
            Some(
                BrowserHostAction::RunFileDialog {
                    mode: mode.code(),
                    title: title_owned,
                    default_file_path: path_owned,
                    accept_filters,
                    selected_accept_filter,
                    callback: h.ptr,
                },
            )
        } else {
            None
        }
    }

    /// Download `image_url`, wrapping the completion closure into a
    /// one-shot container whose pointer crosses with the call.  Produced
    /// is the boundary call, or nothing when the slot is absent: the
    /// closure is then discarded without firing, and no container is
    /// allocated.
    pub fn download_image<F: FnOnce(String, u16, Option<Image>)>(
        &self,
        heap: &BrowserHostHeap,
        cb_heap: &mut DownloadImageCallbackHeap<F>,
        image_url: &str,
        is_favicon: bool,
        max_image_size: u32,
        bypass_cache: bool,
        callback: F,
    ) -> (a: Option<BrowserHostAction>)
        requires
            heap.live(self.0 as int),
            old(cb_heap).wf(),
        ensures
            final(cb_heap).wf(),
            heap.at(self.0 as int).cefobj.slots.download_image ==> ({
                &&& a matches Option::Some(BrowserHostAction::DownloadImage {
                    image_url: u,
                    is_favicon: fav,
                    max_image_size: m,
                    bypass_cache: b,
                    callback: c,
                })
                &&& u@ == image_url@
                &&& fav == if is_favicon { 1int } else { 0int }
                &&& m == max_image_size
                &&& b == if bypass_cache { 1int } else { 0int }
                &&& c == old(cb_heap).len()
                &&& final(cb_heap).len() == old(cb_heap).len() + 1
                &&& final(cb_heap).live(c as int)
                &&& final(cb_heap).count(c as int) == 1
                &&& final(cb_heap).at(c as int).object.callback.contents() == Option::Some(
                    callback,
                )
                &&& final(cb_heap).at(c as int).cefobj.on_download_image_finished
            }),
            !heap.at(self.0 as int).cefobj.slots.download_image ==> a is None && *final(cb_heap)
                == *old(cb_heap),
    {
        let rc = heap.borrow(self.0);
        if rc.cefobj.slots.download_image {
            let w = DownloadImageCallbackWrapper::new(callback);
            let h = w.wrap(cb_heap);
            Some(
                BrowserHostAction::DownloadImage {
                    image_url: image_url.to_owned(),
                    is_favicon: if is_favicon { 1 } else { 0 },
                    max_image_size,
                    bypass_cache: if bypass_cache { 1 } else { 0 },
                    callback: h.ptr,
                },
            )
        } else {
            None
        }
    }

    /// Print the browser contents to the file at `path`, wrapping the
    /// completion closure into a one-shot container whose pointer crosses
    /// with the call.  Produced is the boundary call, or nothing when the
    /// slot is absent: the closure is then discarded without firing, and
    /// no container is allocated.
    pub fn print_to_pdf<F: FnOnce(String, bool)>(
        &self,
        heap: &BrowserHostHeap,
        cb_heap: &mut PdfPrintCallbackHeap<F>,
        path: &str,
        settings: &PDFPrintSettings,
        callback: F,
    ) -> (a: Option<BrowserHostAction>)
        requires
            heap.live(self.0 as int),
            old(cb_heap).wf(),
        ensures
            final(cb_heap).wf(),
            heap.at(self.0 as int).cefobj.slots.print_to_pdf ==> ({
                &&& a matches Option::Some(BrowserHostAction::PrintToPdf {
                    path: p,
                    settings: s,
                    callback: c,
                })
                &&& p@ == path@
                &&& s == *settings
                &&& c == old(cb_heap).len()
                &&& final(cb_heap).len() == old(cb_heap).len() + 1
                &&& final(cb_heap).live(c as int)
                &&& final(cb_heap).count(c as int) == 1
                &&& final(cb_heap).at(c as int).object.callback.contents() == Option::Some(
                    callback,
                )
                &&& final(cb_heap).at(c as int).cefobj.on_pdf_print_finished
            }),
            !heap.at(self.0 as int).cefobj.slots.print_to_pdf ==> a is None && *final(cb_heap)
                == *old(cb_heap),
    {
        let rc = heap.borrow(self.0);
        if rc.cefobj.slots.print_to_pdf {
            let w = PDFPrintCallbackWrapper::new(callback);
            let h = w.wrap(cb_heap);
            Some(
                BrowserHostAction::PrintToPdf {
                    path: path.to_owned(),
                    settings: *settings,
                    callback: h.ptr,
                },
            )
        } else {
            None
        }
    }
}


impl BrowserHost {
    /// Send a key event to the browser, marshaled whole.  Produced is the
    /// boundary call, or nothing when the slot is absent: the operation is
    /// then a silent no-op.
    pub fn send_key_event(&self, heap: &BrowserHostHeap, event: KeyEvent) -> (a: Option<
        BrowserHostAction,
    >)
        requires
            heap.live(self.0 as int),
        ensures
            heap.at(self.0 as int).cefobj.slots.send_key_event ==> a == Option::Some(
                (BrowserHostAction::SendKeyEvent { event }),
            ),
            !heap.at(self.0 as int).cefobj.slots.send_key_event ==> a is None,
    {
        let rc = heap.borrow(self.0);
        if rc.cefobj.slots.send_key_event {
            Some(BrowserHostAction::SendKeyEvent { event })
        } else {
            None
        }
    }

    /// Send a touch event to the browser, marshaled whole.  Produced is
    /// the boundary call, or nothing when the slot is absent.
    pub fn send_touch_event(&self, heap: &BrowserHostHeap, event: &TouchEvent) -> (a: Option<
        BrowserHostAction,
    >)
        requires
            heap.live(self.0 as int),
        ensures
            heap.at(self.0 as int).cefobj.slots.send_touch_event ==> a == Option::Some(
                (BrowserHostAction::SendTouchEvent { event: *event }),
            ),
            !heap.at(self.0 as int).cefobj.slots.send_touch_event ==> a is None,
    {
        let rc = heap.borrow(self.0);
        if rc.cefobj.slots.send_touch_event {
            Some(BrowserHostAction::SendTouchEvent { event: *event })
        } else {
            None
        }
    }

    /// Open developer tools in their own browser; an absent client
    /// crosses as the null pointer.  Produced is the boundary call, or
    /// nothing when the slot is absent.
    pub fn show_dev_tools(
        &self,
        heap: &BrowserHostHeap,
        window_info: &WindowInfo,
        client: Option<Client>,
        settings: Option<BrowserSettings>,
        inspect_element_at: Point,
    ) -> (a: Option<BrowserHostAction>)
        requires
            heap.live(self.0 as int),
        ensures
            heap.at(self.0 as int).cefobj.slots.show_dev_tools ==> a == Option::Some(
                (BrowserHostAction::ShowDevTools {
                    window_info: *window_info,
                    client: (match client {
                        Option::Some(c) => c.ptr,
                        Option::None => 0usize,
                    }),
                    settings,
                    inspect_element_at,
                }),
            ),
            !heap.at(self.0 as int).cefobj.slots.show_dev_tools ==> a is None,
    {
        let rc = heap.borrow(self.0);
        if rc.cefobj.slots.show_dev_tools {
            let client_ptr: usize = match client {
                Some(c) => c.ptr,
                None => 0,
            };
            Some(
                BrowserHostAction::ShowDevTools {
                    window_info: *window_info,
                    client: client_ptr,
                    settings,
                    inspect_element_at,
                },
            )
        } else {
            None
        }
    }

    /// Begin or update a text composition.  Produced is the boundary
    /// call, or nothing when the slot is absent.
    pub fn ime_set_composition(
        &self,
        heap: &BrowserHostHeap,
        text: &str,
        underlines_count: usize,
        underlines: &CompositionUnderline,
        replacement_range: &Range,
        selection_range: &Range,
    ) -> (a: Option<BrowserHostAction>)
        requires
            heap.live(self.0 as int),
        ensures
            heap.at(self.0 as int).cefobj.slots.ime_set_composition ==> ({
                &&& a matches Option::Some(BrowserHostAction::ImeSetComposition {
                    text: t,
                    underlines_count: n,
                    underlines: u,
                    replacement_range: rr,
                    selection_range: sr,
                })
                &&& t@ == text@
                &&& n == underlines_count
                &&& u == *underlines
                &&& rr == *replacement_range
                &&& sr == *selection_range
            }),
            !heap.at(self.0 as int).cefobj.slots.ime_set_composition ==> a is None,
    {
        let rc = heap.borrow(self.0);
        if rc.cefobj.slots.ime_set_composition {
            Some(
                BrowserHostAction::ImeSetComposition {
                    text: text.to_owned(),
                    underlines_count,
                    underlines: *underlines,
                    replacement_range: *replacement_range,
                    selection_range: *selection_range,
                },
            )
        } else {
            None
        }
    }

    /// Create a new browser window synchronously.  This call has no slot:
    /// it always crosses the boundary, with an absent extra-info
    /// dictionary or request context as the null pointer, and the new
    /// browser is rewrapped from the non-null pointer the call answered.
    pub fn create_browser_sync(
        window_info: &WindowInfo,
        client: Client,
        url: &str,
        settings: &BrowserSettings,
        extra_info: Option<DictionaryValue>,
        request_context: Option<RequestContext>,
        reply: usize,
    ) -> (r: (BrowserHostAction, Browser))
        requires
            reply != 0,
        ensures
            ({
                &&& r.0 matches BrowserHostAction::CreateBrowserSync {
                    window_info: w,
                    client: c,
                    url: u,
                    settings: s,
                    extra_info: e,
                    request_context: rc,
                }
                &&& w == *window_info
                &&& c == client.ptr
                &&& u@ == url@
                &&& s == *settings
                &&& e == (match extra_info {
                    Option::Some(d) => d.ptr,
                    Option::None => 0usize,
                })
                &&& rc == (match request_context {
                    Option::Some(x) => x.ptr,
                    Option::None => 0usize,
                })
            }),
            r.1.ptr == reply,
    {
        let extra_ptr: usize = match extra_info {
            Some(d) => d.ptr,
            None => 0,
        };
        let context_ptr: usize = match request_context {
            Some(x) => x.ptr,
            None => 0,
        };
        (
            BrowserHostAction::CreateBrowserSync {
                window_info: *window_info,
                client: client.ptr,
                url: url.to_owned(),
                settings: *settings,
                extra_info: extra_ptr,
                request_context: context_ptr,
            },
            Browser { ptr: reply },
        )
    }
}

} // verus!

