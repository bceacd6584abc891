//! The Apple Accessory Protocol.
pub mod codec;
pub mod opcode;
pub mod session;
pub mod socket;
