//! The device-facing layer: the control-protocol data model and the
//! control-operation number encoding.

pub mod ioctl;
