//! OpenLogi: a local-first companion for Logitech HID++ peripherals.
//!
//! The library holds the logic of the companion: the button/action binding
//! vocabulary and the OS events actions stand for, the user configuration,
//! the application state of the configuration UI, the rendering of the
//! device listing, the discovery decisions for HID++ receivers, and the
//! decisions of the asset sync. Input/output lives with the caller.

pub mod asset;
pub mod assoc;
pub mod binding;
pub mod config;
pub mod device;
pub mod inventory;
pub mod listing;
pub mod paths;
pub mod picker;
pub mod state;
