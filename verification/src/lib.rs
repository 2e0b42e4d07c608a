//! Telemetry dashboard library for a small monochrome pixel display.
//!
//! The crate samples host metrics into a plain snapshot, lays a two-page
//! dashboard out as a list of drawing commands, and drives an SSD1306 panel
//! over I2C through an explicit clear / draw / flush lifecycle.  A fixed-rate
//! frame scheduler decides when metrics are refreshed and which page is shown.

pub mod render;
pub mod scheduler;
pub mod screen_writer;
pub mod system;
pub mod text;
