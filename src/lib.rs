//! Arrangement of a compositor's displays: the display model, the layout
//! geometry used to draw the arrangement, the text written to the compositor's
//! configuration, and the state machine that turns key presses into edits.
//!
//! Lengths on screen are whole pixels; positions in the layout are in
//! thousandths of a logical unit; refresh rates are in millihertz and scale
//! factors in thousandths.

pub mod canvas;
pub mod config;
pub mod controller;
pub mod monitor;
pub mod text;
pub mod utils;

pub use canvas::{Extent, MonitorCanvas, Projection, MARGIN};
pub use controller::{action_for_key, Action, App, Key, Outcome, FAST_STEP, STEP};
pub use monitor::{DisplayError, Monitor, Position, Resolution};
pub use utils::{next_index, previous_index, ScaleValue, TUIMode, SCALE_COUNT};
