//! Verified decision logic of a small collection of firmwares for the
//! Seeed Studio XIAO nRF52840 board: LED cycling, the GPREGRET boot and
//! DFU-reset protocol, the USB serial echo and the task schedules.

pub mod lights;
pub mod reset;
pub mod echo;
pub mod timing;
pub mod usb;
pub mod cdc_session;
pub mod ble;
pub mod blinky;
pub mod hello_world;
pub mod usb_serial;
pub mod rtic_blinky;
pub mod embassy_softdevice;
