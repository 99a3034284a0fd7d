//! Core of a screen colour picker: throttled sampling of a small screen
//! neighbourhood around the cursor, magnification of that neighbourhood into a
//! fixed preview, extraction of the colour under the crosshair, and placement
//! of the tracking overlay window.
//!
//! Every coordinate and size is a whole number of pixels; a cursor sample
//! notes where the reported position lay between pixels. The engine performs
//! no capture and draws nothing: callers hand it cursor samples, monitor
//! geometry and raw capture buffers, and carry out what it returns.

pub mod color;
pub mod placement;
pub mod sampler;
pub mod session;
pub mod throttle;
