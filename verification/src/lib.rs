//! Firmware-update agent core: decides whether a newer firmware image exists,
//! accounts for the bytes of a streamed download, and applies a
//! verify-then-commit-or-abort policy to a transactional storage slot.
//!
//! Network transport and the device's flash primitives live outside this
//! crate; the logic here works on the plain values they produce.

pub mod errors;
pub mod version;
pub mod transfer;
pub mod storage;
pub mod oracle;
pub mod install;
pub mod orchestrator;
