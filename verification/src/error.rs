//! The ways in which a session or a dispatch can fail.

use vstd::prelude::*;

verus! {

/// A failure of the device pipeline. None of them is recoverable: the caller
/// stops at the first one.
#[derive(Clone, Copy, Debug, PartialEq, Eq, Structural)]
pub enum GpuError {
    /// The system has no compute device to open.
    DeviceUnavailable,
    /// The kernel source did not compile, or did not link into a pipeline
    /// state for its entry point.
    KernelCompileError,
    /// The device retired the command buffer with a fault.
    DeviceExecutionError,
    /// The sum read back from the device disagrees with the host's own.
    ResultMismatch,
}

} // verus!
