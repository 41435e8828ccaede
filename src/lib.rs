//! Builder for USB HID report descriptors made of Usage Page, Usage and
//! padding items, with the exact byte layout of every item stated and proved.

pub mod tables;
pub mod builder;
