//! The ways in which start-up can fail. None of them is recovered from.

use vstd::prelude::*;

verus! {

/// A precondition of the desktop or of the GPU that does not hold.
#[derive(Clone, Copy, Debug, PartialEq, Eq, Structural)]
pub enum OverlayError {
    /// No output's rectangle contains the pointer.
    PointerOutsideOutputs,
    /// The screen offers no depth of 32 bits.
    DepthNotSupported,
    /// The 32-bit depth has no true-colour visual with 8 bits per channel.
    NoUsableVisual,
    /// The adapter cannot pass push constants to shader stages.
    PushConstantsUnsupported,
}

impl OverlayError {
    /// The message shown when the process gives up on this error.
    pub fn message(&self) -> (text: &'static str)
        ensures
            text@ == match *self {
                OverlayError::PointerOutsideOutputs => "pointer is not on any output"@,
                OverlayError::DepthNotSupported => "32 bit depth not supported"@,
                OverlayError::NoUsableVisual => "no usable 32 bit visual found"@,
                OverlayError::PushConstantsUnsupported => "adapter lacks push constants"@,
            },
    {
        match self {
            OverlayError::PointerOutsideOutputs => "pointer is not on any output",
            OverlayError::DepthNotSupported => "32 bit depth not supported",
            OverlayError::NoUsableVisual => "no usable 32 bit visual found",
            OverlayError::PushConstantsUnsupported => "adapter lacks push constants",
        }
    }
}

} // verus!
