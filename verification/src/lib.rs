//! A typed client core for Linux's device-hotplug notification channel.
//!
//! The crate covers the logic of a device event monitor: a filter builder
//! that accumulates subsystem/devtype match rules, an activated monitor that
//! interprets one non-blocking read at a time, the decoder that turns a raw
//! kernel notification payload into a typed event, and the classifier that
//! turns raw OS error codes into a small error taxonomy.  The socket itself
//! and the caller's readiness polling live outside this crate; the monitor
//! only decides, on plain values, what each outcome of a read means.

pub mod error;
pub mod event;
pub mod monitor;
pub mod scan;

pub use error::{from_errno, Error, Kind, Result};
pub use event::{decode_event, Event, EventType};
pub use monitor::{FilterRule, Monitor, MonitorSpec, ReadOutcome, RuleModel};
