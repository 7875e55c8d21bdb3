//! An interactive terminal line filter: lines arriving from a piped source
//! are echoed with the first occurrence of a user-editable search term
//! highlighted, while a fixed three-row status area at the bottom of the
//! terminal shows the current term.
//!
//! This crate holds the verified core: substring matching and highlighting,
//! the status-area buffer and its redraw protocol, construction of the
//! terminal control sequences, the filter-term editing rules, and the
//! shutdown coordination state machine. The surrounding binary owns the
//! actual terminal device, threads and pipes, and drives this core with
//! plain values.

pub mod ansi;
pub mod filter;
pub mod highlight;
pub mod session;
pub mod status;
pub mod term_mode;
