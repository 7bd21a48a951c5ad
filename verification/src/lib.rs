//! The PipeWire audio backend: device registry, device capabilities and stream setup.

pub mod config;
pub mod decimal;
pub mod properties;
pub mod registry;
pub mod device;
pub mod stream;
