//! Control logic for vendor laptop subsystems: battery charging mode,
//! thermal profile and keyboard backlight.
//!
//! The library decides and encodes; it performs no device access itself.
//! A caller asks it what to do, does that on the machine, and hands back
//! what the machine answered:
//!
//! - [`guards`] holds the write lock that every mutating request consults
//!   first.
//! - [`detect`] and [`models`] resolve the identity of the machine, one
//!   query at a time.
//! - [`query`] reads rows and settings returned by the management-data
//!   provider and builds the scripts for its methods.
//! - [`energy`] encodes commands for the charge-mode device.
//! - [`lighting`] builds keyboard feature reports and orders their
//!   delivery attempts.
//! - [`battery`] and [`power`] are the facades of the settings.
//! - [`gui`] is the state behind the control panel.
//! - [`errors`] and [`text`] are shared by all of them.

pub mod battery;
pub mod detect;
pub mod energy;
pub mod errors;
pub mod guards;
pub mod gui;
pub mod lighting;
pub mod models;
pub mod power;
pub mod query;
pub mod text;
