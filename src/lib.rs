use vstd::prelude::*;

pub mod codec;
pub mod command;
pub mod config;
pub mod driver;
pub mod firmware_version;
pub mod frame_sync;
pub mod radar_target;

pub use codec::BaudRate;
pub use config::Config;
pub use firmware_version::FirmwareVersion;
pub use driver::{ConfigurationMode, Desync, NormalMode, LD2450};
pub use radar_target::RadarTarget;

verus! {

/// Errors reported by the driver.
#[derive(Debug, Clone, Copy, PartialEq, Eq, Structural)]
pub enum RadarError {
    /// A header, length field or end-of-frame marker did not match what the
    /// protocol prescribes
    UnexpectedFrameSize,
    /// The serial transport failed
    SerialError,
    /// The serial port failed during a mode change, so it is unknown whether
    /// the radar is in normal or configuration mode
    Desyncronized,
}

} // verus!
