//! The error taxonomy of the bootstrap chain: configuration errors (a missing
//! capability, named), suitability errors (no usable device), and driver
//! errors (a failed creation call, wrapped with the stage that failed).
//! Every one of them is fatal; nothing here is retried.

use vstd::prelude::*;

verus! {

/// The fallible creation stages of the bootstrap chain, in creation order.
/// A driver error carries the stage whose creation call failed.
#[derive(Clone, Copy, Debug, PartialEq, Eq, Structural)]
pub enum StageName {
    Instance,
    DebugMessenger,
    Surface,
    DeviceSelection,
    Device,
    SwapchainQuery,
    Swapchain,
    ImageView,
    RenderPass,
    PipelineLayout,
    Pipeline,
}

/// Why the bootstrap chain stopped.
#[derive(Debug)]
pub enum BootstrapError {
    /// Validation was requested but the named instance layer is absent.
    /// Configuration error: fatal, never downgraded silently.
    MissingLayer(String),
    /// No enumerated physical device passed the suitability check.
    NoSuitableDevice,
    /// A driver creation call failed; carries the failing stage and the
    /// driver's raw result code.
    Driver(StageName, i32),
}

impl BootstrapError {
    /// Which stage this error charges, for reporting.
    pub fn stage(&self) -> (r: StageName)
        ensures
            r == self.spec_stage(),
    {
        match self {
            BootstrapError::MissingLayer(_) => StageName::Instance,
            BootstrapError::NoSuitableDevice => StageName::DeviceSelection,
            BootstrapError::Driver(stage, _) => *stage,
        }
    }

    /// The stage an error belongs to.
    pub open spec fn spec_stage(&self) -> StageName {
        match self {
            BootstrapError::MissingLayer(_) => StageName::Instance,
            BootstrapError::NoSuitableDevice => StageName::DeviceSelection,
            BootstrapError::Driver(stage, _) => *stage,
        }
    }
}

/// Why the ahead-of-time shader build planning stopped.  Unreadable source
/// files are reported by the build harness itself; the planning logic here
/// rejects only misnamed sources.
#[derive(Debug)]
pub enum ShaderError {
    /// A shader source file whose name matches no known stage suffix.
    /// Configuration error: fatal, carries the offending filename.
    UnrecognizedStage(String),
}

} // verus!
