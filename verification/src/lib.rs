pub mod codes;
pub mod header;
pub mod protocol;
mod usb;
