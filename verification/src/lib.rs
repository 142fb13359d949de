//! A minimal terminal-UI runtime: keyboard input and a periodic timer are
//! merged into one ordered event stream, which drives a stack of interactive
//! views until the active view completes or the stream closes.
//!
//! The crate holds the event model, the example views (a list selector and an
//! alert dialog), the view-driving state machine, and the decision logic of
//! the event producers. Terminal I/O (raw mode, the input and ticker threads,
//! widget painting) lives outside, in the surrounding application.

pub mod alert;
pub mod event;
pub mod event_source;
pub mod runtime;
pub mod selector;
