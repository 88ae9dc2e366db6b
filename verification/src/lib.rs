//! Detection of pointer-driven text selections, built around a clipboard
//! interception protocol.
//!
//! The library models the single system clipboard, a drag-gesture state
//! machine fed by global pointer events, the snapshot/clear/copy/read/restore
//! extraction protocol, and the lifecycle of the background monitor that ties
//! them together. Every decision the monitor makes — whether a drag qualifies
//! as a selection, what the clipboard must hold after an extraction, when a
//! selection event is emitted — is stated in contracts and proved. The
//! platform work itself (installing the input hook, injecting the copy chord,
//! touching the real clipboard) is performed by a thin unverified driver that
//! feeds its observations back into these verified functions.

pub mod clipboard;
pub mod errors;
pub mod event;
pub mod extract;
pub mod gesture;
pub mod keys;
pub mod monitor;
