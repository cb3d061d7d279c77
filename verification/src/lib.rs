//! Acquisition engine for register-based field devices: typed channels,
//! register windows, threshold alarms, range patterns, polling workers and the
//! telemetry relay.

pub mod alarm;
pub mod binary32;
pub mod channel;
pub mod config;
pub mod text;
pub mod channel_pattern;
pub mod logger_channel;
pub mod device;
pub mod register_window;
pub mod worker;
pub mod logger;
pub mod relay;
pub mod mailbox;
pub mod controller;
