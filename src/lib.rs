//! Translation of window messages and raw-input reports into an ordered
//! stream of input changes, and the reduction of that stream into an input
//! snapshot for an immediate-mode UI layer.
//!
//! The decoding and the decisions of the window procedure are pure functions
//! of the message payload; the unsafe platform calls (fetching a raw-input
//! report, translating a scan code, calling the previous window procedure)
//! are made by the caller, which hands their results in as plain values.

pub mod change;
pub mod decode;
pub mod laws;
pub mod message;
pub mod queue;
pub mod snapshot;
pub mod wndproc;
