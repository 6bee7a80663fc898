//! A verified model of a reference-counted foreign-object bridge.
//!
//! A foreign library exposes its objects as C records whose first field is a
//! table of function pointers: four slots drive an intrusive, atomically
//! counted ownership protocol, and further optional slots carry the object's
//! behaviour.  Safe code wraps its own values into such objects, hands them
//! across the boundary, and receives foreign pointers back as owned handles.
//!
//! This crate states and verifies the rules of that bridge:
//!
//! * [`refcounted`] — the dual-layout container (vtable, counter, payload),
//!   the owning-handle protocol, and the balance law for clone/drop sequences;
//! * [`oneshot`] — the take-once cell that guards completion callbacks which
//!   may be invoked at most once;
//! * [`send_protector`] — the thread-confinement wrapper for payloads that
//!   cross the boundary under a documented single-thread contract;
//! * [`cef_string`] — the wide-character boundary form of text, with a
//!   proved lossless round trip;
//! * [`render_process_handler`], [`urlrequest`], [`browser_host`] — the
//!   capability traits, wrap constructors and trampolines built on the core.

pub mod browser_host;
pub mod cef_string;
pub mod objects;
pub mod oneshot;
pub mod refcounted;
pub mod render_process_handler;
pub mod send_protector;
pub mod urlrequest;
pub mod values;
