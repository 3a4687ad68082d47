//! Finds files with the `.asd` suffix under a directory tree, reports their
//! count and aggregate size in binary units, and plans an optional purge that
//! is gated behind an explicit flag combination or an interactive confirmation.
//!
//! The crate holds the decision logic and the text processing of the tool:
//! how a run mode is derived from the flags and the confirmation answer, how
//! the listing backend's output is validated and split into paths, how sizes
//! are accumulated and rendered, and which paths a purge may touch. The thin
//! shell that talks to the operating system lives outside and feeds this
//! library plain values.

pub mod error;
pub mod human;
pub mod mode;
pub mod scan;
pub mod text;
