//! Core logic of a browser-hosted GPU frame painter.
//!
//! The crate verifies the two decision layers of such a painter:
//!
//! - context negotiation: which graphics-API versions are tried, in which
//!   order, for a caller-chosen strategy, and when a vendor-specific
//!   brightening workaround is enabled for the legacy version;
//! - the per-frame painting protocol: the order of texture uploads, clear,
//!   draw, capture and texture frees, and the FIFO queue of captured frames
//!   that is drained into screenshot events.
//!
//! The host calls themselves (canvas context queries, GL draw calls, pixel
//! readback) are performed by an unverified shell around this crate; the
//! shell feeds their outcomes back into the verified decision functions.

pub mod frame;
pub mod negotiate;
pub mod text;
pub mod vendor;

pub use text::str_contains;
