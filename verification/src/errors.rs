use vstd::prelude::*;

verus! {

/// The kernel's error taxonomy.
///
/// Allocation and handle errors are returned to the immediate caller as
/// explicit values; the device-control boundary additionally collapses all of
/// its failures into a single "operation failed" signal for callers that only
/// need success or failure.
#[derive(Clone, Copy, Debug, PartialEq, Eq, Structural)]
pub enum KernelError {
    /// A context or device handle is unknown, stale, or (for a stop request)
    /// names the currently running context, which is never a valid target.
    InvalidHandle,
    /// A context was stopped twice.
    AlreadyStopped,
    /// A stack, buffer or table request exceeds the configured limits.
    OversizeRequest,
    /// A device name was not recognized or the device was never initialized.
    UnknownDevice,
    /// A command was issued to a device of the wrong category.
    CommandMismatch,
    /// A sector, platter or syscall id lies outside its bounds.
    OutOfRange,
    /// A syscall id has no registered handler: soft failure, reported to the
    /// caller.
    UnhandledSyscall,
    /// A raised interrupt has no registered handler: fatal, the kernel halts.
    UnhandledInterrupt,
}

} // verus!
