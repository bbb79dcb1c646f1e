//! Inline inspection of received frames: bounds-checked header overlays,
//! address extraction by role, the IPv4 header checksum, and the staged
//! link / network / transport classifier.
//!
//! Every overlay is a window of the caller's frame buffer; nothing is copied
//! and nothing is allocated.

pub mod action;
pub mod bounds;
pub mod checksum;
pub mod classify;
pub mod helper;
pub mod log;
pub mod wire;
