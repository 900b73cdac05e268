//! What the camera core can refuse.
use vstd::prelude::*;

verus! {

/// Why a call did not go through.
#[derive(Clone, Copy, Debug, PartialEq, Eq, Structural)]
pub enum CameraError {
    /// A configuration was asked for without any enabled camera mode.
    EmptyModeList,
    /// The exact result of the arithmetic does not fit the machine type that has to hold it.
    OutOfRange,
}

} // verus!
