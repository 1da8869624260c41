//! Signature help: the tooltip that lists a function's parameters while a
//! call is being typed.
//!
//! The crate turns a language server's signature-help response into one line
//! of highlighted text per signature, and carries the same response to and
//! from the message that is sent to collaborating peers.

pub mod bridge;
pub mod formatter;
pub mod guarantees;
pub mod popover;
pub mod popover_page;
pub mod raw;
pub mod text;
pub mod wire;
