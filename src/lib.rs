//! Control logic for a layered keypad with an analog stick, a rotary
//! encoder and an addressable LED strip.
//!
//! Each frame the caller samples every input into a [`FrameInput`], hands it
//! to [`KeymapState::update`] together with the [`Keymap`], and receives the
//! semantic report to send to the host. The LED colour buffer lives in
//! [`WS2812`], which turns colours into the exact pulse train for the strip.

pub mod keymap;
pub mod mapping;
pub mod report;
pub mod stick;
pub mod ws2812;

pub use keymap::{Diagnostics, Frame, FrameInput, Keymap, KeymapState};
pub use mapping::{KeyboardAction, Layer, Mapping};
pub use report::{KeypadReport, Report};
pub use stick::StickCalibration;
pub use ws2812::{Pulse, WS2812};
