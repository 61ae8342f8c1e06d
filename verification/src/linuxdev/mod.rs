//! Game controllers on Linux, through udev and evdev.

pub mod codes;
pub mod mapping;
pub mod props;
pub mod device;
pub mod info;
pub mod events;
pub mod context;
