//! A transparent Bluetooth HID proxy: the verified parts of the relay,
//! the address handling and the wire encodings it needs.

pub mod hex;
pub mod wire;
mod text;
pub mod address;
pub mod report;
pub mod relay;
pub mod drain;
pub mod l2cap;
pub mod os;
pub mod hci;
pub mod dump;
pub mod controller;
