//! zerokb: a USB HID keyboard gadget driven over TCP.
//!
//! The verified core: the US-layout character-to-scancode table, the HID
//! report format, the control protocol, the per-connection typing state
//! machine, and the state, key handling and screen layout of the
//! interactive typing client.
pub mod control;
pub mod editor;
pub mod keymap;
pub mod report;
pub mod screen;
pub mod session;
pub mod usb;
