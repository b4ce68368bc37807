//! User-space access to x86 model-specific registers (MSRs) through the
//! per-CPU character device that the `msr` kernel module exposes.
//!
//! The library owns the accessor logic: deriving the per-CPU device path,
//! classifying a missing device node apart from ordinary I/O failure,
//! staging an 8-byte buffer, decoding and encoding its 64-bit value, and
//! performing seek-addressed reads and position-addressed writes through a
//! narrow device capability ([`Device`]). A file-backed device lives with
//! the embedding program; verified in-memory stand-ins are provided here
//! for exercising the accessor without a real `/dev/cpu/<cpu>/msr` node.

pub mod codec;
pub mod device;
pub mod error;
pub mod msr;
pub mod path;

pub use msr::Accessor;
pub use msr::Msr;
pub use device::AbsentDevice;
pub use device::Device;
pub use device::MemDevice;
pub use device::MEM_DEVICE_LEN;
pub use error::MsrError;
pub use codec::bytes_of;
pub use codec::word_of;
