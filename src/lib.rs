//! Finds the on-screen windows worth capturing and turns a captured surface
//! into a tightly packed BGRA bitmap.
//!
//! - `text`: text read from fixed-size UTF-16 buffers.
//! - `window`: descriptors of windows and displays.
//! - `filter`: the decision whether a window is a capture target.
//! - `capture`: row repacking and the captured bitmap.
//! - `session`: the steps of one capture and the release of its resources.

pub mod text;
pub mod window;
pub mod filter;
pub mod capture;
pub mod session;
