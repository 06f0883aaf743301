//! A weighted random-choice wheel: named items with integer weights, a spin
//! animation driven one tick per frame, and the rule that maps the angle at
//! which the wheel comes to rest to the winning item.
//!
//! All quantities are fixed-point integers in millionths of their unit:
//! angles in micro-radians, settle time in microseconds, percentages in
//! millionths of a percent.

pub mod controller;
pub mod display;
pub mod engine;
pub mod item;
pub mod percentage;
pub mod resolver;
pub mod session;
pub mod spin;
pub mod text;
pub mod weights;
pub mod wheel;

pub use item::{default_weight, Item};
pub use percentage::TypedShare;
pub use session::{SaveData, WheelApp};
pub use spin::{Phase, SpinState};
pub use wheel::{Probability, Wheel, WheelData, WheelState};
