//! Driver core for Slamtec RPLIDAR range finders.
//!
//! The library holds the protocol logic: frame validation, capsule
//! decoding, scan-mode negotiation messages and the scan-point queue.
//! Moving bytes to and from the device is left to the caller.

mod le_bytes;

pub mod answers;
pub mod capsule;
pub mod checksum;
pub mod cmds;
pub mod device;
pub mod negotiation;
pub mod protocol;
pub mod types;

pub use le_bytes::{le_u16_spec, le_u32_spec};
