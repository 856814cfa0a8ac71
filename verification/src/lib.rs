//! A model of a two-section firmware list view: an ordered "system firmware"
//! section stacked above a "device firmware" section, with keyboard focus
//! navigation across the boundary between them.

pub mod devices;
pub mod laws;
pub mod model;
