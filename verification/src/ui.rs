//! The decisions behind the screens: what the ambient slider, the controls
//! list, the equalizer and the header show, and what a click on them asks of
//! the device.

pub mod ambient;
pub mod controls;
pub mod widgets;
pub mod debug;
