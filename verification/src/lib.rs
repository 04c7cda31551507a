//! Read-only realtime monitoring engine for RagTech UPS hardware.

pub mod codec;
pub mod config;
pub mod device;
pub mod driver;
pub mod exchange;
pub mod export;
pub mod hex;
pub mod monitor;
pub mod monitor_laws;
pub mod probe;
pub mod retention;
pub mod snapshot;
pub mod text;
pub mod vars;

pub use config::MonitorConfig;
pub use device::DeviceInfo;
pub use driver::{DriverError, ReadResult, VendorShimDriver};
pub use monitor::Monitor;
pub use snapshot::{
    Freshness, MonitorStatus, Snapshot, SnapshotDevice, SnapshotQuality, Transport,
};
