//! Discovery of USB devices attached to a host.
//!
//! The library has two halves. One-shot enumeration reads every attached
//! device into a plain [`device::DeviceRecord`] and applies an optional
//! identifier filter. A monitoring session turns raw driver notifications,
//! delivered on the driver's own event-pump thread, into structured
//! arrival/removal events for a single consumer callback, and tears the
//! subscription down again without a double unregister.
//!
//! Everything the platform driver reports is modelled as plain values
//! ([`device::RawDevice`], [`monitor::Notification`]), so the decision logic
//! is independent of any particular driver binding; a thin unverified shell
//! performs the actual driver calls and feeds the results in.

pub mod device;
pub mod enumerate;
pub mod monitor;

pub use device::read_device;
pub use device::DeviceError;
pub use device::DeviceIdentity;
pub use device::DeviceRecord;
pub use device::RawDevice;
pub use enumerate::find_devices;
pub use enumerate::get_device_list;
pub use enumerate::BusProbe;
pub use enumerate::FilterCriteria;
pub use monitor::HotplugEvent;
pub use monitor::MonitoringSession;
pub use monitor::Notification;
