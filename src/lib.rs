//! Device Firmware Upgrade over a USB transport: the control-transfer
//! adapter that a DFU protocol engine drives, the device opener, and the
//! decisions of a firmware download.

pub mod classify;
pub mod error;
pub mod usb;
pub mod adapter;
pub mod opener;
pub mod download;
pub mod parse;
