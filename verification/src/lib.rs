//! The decision core of a window-to-pixel-surface adapter.
//!
//! A host owns the native window, the pixel surface, the event source and the
//! user's processor. For every platform event it asks this library which
//! steps to perform, and in which order: which surface operations to run and
//! which callback of the processor to invoke, with which payload. The library
//! keeps what the decisions depend on (the sizes of window, surface and frame
//! buffer, the loop-control signal and the elapsed-time clock) as plain values.

pub mod control;
pub mod event;
pub mod laws;
pub mod script;
pub mod toolkit;
pub mod window;
