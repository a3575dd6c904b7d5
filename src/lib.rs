//! Firmware core of a USB to CAN FD adapter: host/controller frame
//! translation, dual-bank flash update planning, one-time-programmable
//! memory writes and vital product data decoding.

pub mod can;
pub mod dfu;
pub mod dword;
pub mod otp;
pub mod vpd;
