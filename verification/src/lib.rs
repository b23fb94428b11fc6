//! Capture-and-crop core of a screenshot tool: hotkey chords, monitor lookup,
//! frame normalisation, drag selection and overlay geometry.

pub mod coords;
pub mod crop;
pub mod error;
pub mod frame;
pub mod hotkey;
pub mod listener;
pub mod monitor;
pub mod overlay;
pub mod selection;
pub mod session;
pub mod trigger;
