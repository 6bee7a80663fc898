//! Plain handles for foreign-origin objects.
//!
//! Objects that originate on the foreign side of the boundary — browsers,
//! frames, script contexts and the like — are opaque: safe code only ever
//! holds their raw object pointer and drives the shared reference-count
//! protocol through it.  Each type here carries exactly that pointer, as an
//! index into the heap that models the foreign allocations; a pointer of 0
//! is the null pointer and stands for an absent object.

use vstd::prelude::*;

verus! {

/// A browser originated by the foreign library.
#[derive(Clone, Copy, PartialEq, Eq, Structural, Debug)]
pub struct Browser {
    pub ptr: usize,
}

/// A frame within a browser.
#[derive(Clone, Copy, PartialEq, Eq, Structural, Debug)]
pub struct Frame {
    pub ptr: usize,
}

/// A script context belonging to a frame.
#[derive(Clone, Copy, PartialEq, Eq, Structural, Debug)]
pub struct V8Context {
    pub ptr: usize,
}

/// An uncaught script exception.
#[derive(Clone, Copy, PartialEq, Eq, Structural, Debug)]
pub struct V8Exception {
    pub ptr: usize,
}

/// The stack trace attached to a script exception.
#[derive(Clone, Copy, PartialEq, Eq, Structural, Debug)]
pub struct V8StackTrace {
    pub ptr: usize,
}

/// A snapshot of a document node.
#[derive(Clone, Copy, PartialEq, Eq, Structural, Debug)]
pub struct DOMNode {
    pub ptr: usize,
}

/// An ordered list of values owned by the foreign side.
#[derive(Clone, Copy, PartialEq, Eq, Structural, Debug)]
pub struct ListValue {
    pub ptr: usize,
}

/// A keyed dictionary of values owned by the foreign side.
#[derive(Clone, Copy, PartialEq, Eq, Structural, Debug)]
pub struct DictionaryValue {
    pub ptr: usize,
}

/// A message passed between processes.
#[derive(Clone, Copy, PartialEq, Eq, Structural, Debug)]
pub struct ProcessMessage {
    pub ptr: usize,
}

/// A handler for browser load status events, already in foreign shape.
#[derive(Clone, Copy, PartialEq, Eq, Structural, Debug)]
pub struct LoadHandler {
    pub ptr: usize,
}

/// One entry of a browser's navigation history.
#[derive(Clone, Copy, PartialEq, Eq, Structural, Debug)]
pub struct NavigationEntry {
    pub ptr: usize,
}

/// A downloaded image.
#[derive(Clone, Copy, PartialEq, Eq, Structural, Debug)]
pub struct Image {
    pub ptr: usize,
}

/// The request description a URL request was created from.
#[derive(Clone, Copy, PartialEq, Eq, Structural, Debug)]
pub struct Request {
    pub ptr: usize,
}

/// The context a request runs in.
#[derive(Clone, Copy, PartialEq, Eq, Structural, Debug)]
pub struct RequestContext {
    pub ptr: usize,
}

/// A cookie attached to a request or response.
#[derive(Clone, Copy, PartialEq, Eq, Structural, Debug)]
pub struct Cookie {
    pub ptr: usize,
}

/// A continuation callback owned by the foreign side.
#[derive(Clone, Copy, PartialEq, Eq, Structural, Debug)]
pub struct Callback {
    pub ptr: usize,
}

/// The client record attached to a browser.
#[derive(Clone, Copy, PartialEq, Eq, Structural, Debug)]
pub struct Client {
    pub ptr: usize,
}

/// An extension hosted in a browser.
#[derive(Clone, Copy, PartialEq, Eq, Structural, Debug)]
pub struct Extension {
    pub ptr: usize,
}

/// A registration that keeps an observer installed while it lives.
#[derive(Clone, Copy, PartialEq, Eq, Structural, Debug)]
pub struct Registration {
    pub ptr: usize,
}

/// The data of a drag operation.
#[derive(Clone, Copy, PartialEq, Eq, Structural, Debug)]
pub struct DragData {
    pub ptr: usize,
}

/// An observer of developer-tools protocol messages, already in foreign
/// shape.
#[derive(Clone, Copy, PartialEq, Eq, Structural, Debug)]
pub struct DevToolsMessageObserver {
    pub ptr: usize,
}

/// The process a message originates from.
#[derive(Clone, Copy, PartialEq, Eq, Structural, Debug)]
pub enum ProcessId {
    Browser,
    Renderer,
}

impl ProcessId {
    /// The integer the boundary uses for this process.
    pub open spec fn code_spec(self) -> i32 {
        match self {
            ProcessId::Browser => 0,
            ProcessId::Renderer => 1,
        }
    }

    /// The process a boundary integer names, if it names one.
    pub open spec fn from_code_spec(code: i32) -> Option<ProcessId> {
        if code == 0 {
            Option::Some(ProcessId::Browser)
        } else if code == 1 {
            Option::Some(ProcessId::Renderer)
        } else {
            Option::None
        }
    }

    /// The integer the boundary uses for this process.
    pub fn code(self) -> (c: i32)
        ensures
            c == self.code_spec(),
    {
        match self {
            ProcessId::Browser => 0,
            ProcessId::Renderer => 1,
        }
    }

    /// Read a process identifier off the boundary.  An integer that names
    /// no process yields nothing rather than a made-up process.
    pub fn from_code(code: i32) -> (r: Option<ProcessId>)
        ensures
            r == ProcessId::from_code_spec(code),
    {
        if code == 0 {
            Some(ProcessId::Browser)
        } else if code == 1 {
            Some(ProcessId::Renderer)
        } else {
            None
        }
    }
}

} // verus!
