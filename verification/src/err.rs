use vstd::prelude::*;

verus! {

/// Errors surfaced by the hypervisor core.
///
/// Configuration and resource problems are reported to the caller before a
/// virtual machine is published; protocol violations observed while a guest
/// runs are corruption signals and end the affected startup or run.
#[derive(Clone, Copy, Debug, PartialEq, Eq, Structural)]
pub enum HvError {
    /// A required file or object was absent (guest image loading).
    NotFound,
    /// An input/output operation failed (guest image loading).
    Io,
    /// Memory for a construction step could not be obtained.
    NoMemory,
    /// A trapped access fell outside every emulated or mapped window, or the
    /// trapped instruction is not one the emulation path supports.
    BadAddress,
    /// Bytes that should decode as an instruction do not.
    InvalidData,
    /// A caller-supplied value (virtual CPU id, CPU count, region shape) is
    /// outside what the configuration allows.
    InvalidInput,
    /// The platform lacks hardware virtualization support, or the trap came
    /// from a guest privilege level this core does not serve.
    Unsupported,
    /// A lifecycle rule was broken: a state transition from the wrong state,
    /// a second binder for a running virtual CPU, a zero interrupt claim.
    BadState,
    /// A region to be installed overlaps one already installed.
    AlreadyExists,
}

} // verus!
