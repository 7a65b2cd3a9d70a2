//! Errors of the start-up sequence.
use vstd::prelude::*;

verus! {

/// Error while asking the windowing library for what a Vulkan surface needs.
#[derive(Clone, Copy, Debug, PartialEq, Eq, Structural)]
pub enum VulkanoGlfwError {
    /// The windowing library failed with this Vulkan result code.
    GlfwError { code: u32 },
    /// The windowing library could not report the instance extensions it needs.
    NoExtensions,
}

impl VulkanoGlfwError {
    /// A short text for the error.
    pub fn description(&self) -> (r: &'static str)
        ensures
            self is GlfwError ==> r@ == "Genral Vulkan GLFW error"@,
            self is NoExtensions ==> r@ == "Could not load required extensions"@,
    {
        match self {
            VulkanoGlfwError::GlfwError { .. } => "Genral Vulkan GLFW error",
            VulkanoGlfwError::NoExtensions => "Could not load required extensions",
        }
    }
}

/// Why the application could not start. None of these can be recovered from.
#[derive(Clone, Copy, Debug, PartialEq, Eq, Structural)]
pub enum InitError {
    /// A query to the driver or the platform itself failed.
    ProbeFailure,
    /// No enumerated device passed the suitability rules.
    NoSuitableDevice,
    /// Validation layers were requested but one of them is not installed.
    ValidationLayerUnavailable,
    /// The windowing library could not report the instance extensions it needs.
    ExtensionUnavailable,
}

impl InitError {
    /// A short text for the error.
    pub fn description(&self) -> (r: &'static str)
        ensures
            *self == InitError::ProbeFailure ==> r@ == "failed to query the graphics driver"@,
            *self == InitError::NoSuitableDevice ==> r@ == "failed to find a suitable GPU"@,
            *self == InitError::ValidationLayerUnavailable ==> r@
                == "validation layers requested, but not available!"@,
            *self == InitError::ExtensionUnavailable ==> r@
                == "could not load the instance extensions the window needs"@,
    {
        match self {
            InitError::ProbeFailure => "failed to query the graphics driver",
            InitError::NoSuitableDevice => "failed to find a suitable GPU",
            InitError::ValidationLayerUnavailable => "validation layers requested, but not available!",
            InitError::ExtensionUnavailable => "could not load the instance extensions the window needs",
        }
    }
}

} // verus!
