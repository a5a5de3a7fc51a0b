//! Live process-memory inspection and patching engine.
//!
//! The library locates a running target process by name, identifies which
//! build of the target is running via a content fingerprint of its main
//! module, resolves a version-specific struct address by walking a chain of
//! pointer dereferences, and performs typed reads and writes of configuration
//! fields inside that struct.  A background supervisor keeps the capture
//! valid across process restarts; its decision core is the verified state
//! machine in [`supervisor`], while the OS-facing work (process enumeration,
//! cross-process transfers, the network fetch of the offset catalog) is done
//! by the surrounding application and handed in as plain values.

pub mod aucaptureoffsets;
pub mod auprocess;
pub mod auprocessreadwrite;
pub mod errors;
pub mod game_settings;
pub mod memory;
pub mod storage;
pub mod strutil;
pub mod supervisor;
