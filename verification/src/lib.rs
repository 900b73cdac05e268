//! The core of a camera controller for a real-time 3D scene: which camera
//! behaviour is selected, where the camera should look, how its focus follows,
//! which of two cameras renders, and how the mouse turns the view.
//!
//! Every function is a step from the state and one frame's inputs to the next
//! state and what the host has to do. The host owns the scene, the window and
//! the input devices: it reads them before a step and carries out the result
//! after it.
//!
//! All quantities are fixed-point integers that count millionths (see
//! `fixed`), so that every step is exact and has a contract over the integers.
pub mod authority;
pub mod blend;
pub mod config;
pub mod cursor;
pub mod cycle;
pub mod error;
pub mod fixed;
pub mod focus;
pub mod frame;
pub mod input;
pub mod look;
pub mod markers;
pub mod mode;
pub mod motion;
pub mod scroll;
pub mod settings;
pub mod vec3;

pub use crate::config::{CameraSettings, Config, Controller};
pub use crate::input::validate_key;
pub use crate::markers::{AttachedCam, PlayerMove, StaticCam};
pub use crate::mode::CameraMode;
