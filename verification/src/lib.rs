//! Access layer for Chromium-family saved-login stores, plus a small
//! in-memory registry of time-based one-time-password accounts.
//!
//! The library locates per-browser, per-profile credential databases,
//! maps human-readable profile names to on-disk directory names through
//! the browser's configuration manifest, models snapshot-based access to
//! a database the owning browser may hold locked, and performs row
//! deletion with a bounded write-back retry protocol.

pub mod errors;
pub mod manifest;
pub mod orchestrate;
pub mod registry;
pub mod snapshot;
pub mod store;
pub mod timeconv;
pub mod totp;

pub use timeconv::webkit_to_unix_time;
