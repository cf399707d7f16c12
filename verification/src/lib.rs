//! Verified callback-handler core for a small declarative-UI application.
//!
//! A UI toolkit owns the window and the event loop; this crate holds the part
//! worth reasoning about: the state that the UI displays, the pure transition
//! that each UI event performs on it, and the compile-time platform probe that
//! produces the descriptive strings shown in the window.  An embedding binary
//! constructs the toolkit's UI object, registers one thin callback per event
//! that forwards to [`handlers::deliver_event`], and blocks on the event loop.

pub mod handlers;
pub mod platform;
pub mod state;
pub mod text;
