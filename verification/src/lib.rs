//! Verified core of a per-virtual-CPU execution loop for a hardware-backed
//! trusted execution environment ("keep").
//!
//! The crate covers three concerns:
//! - computing the register state that places a fresh virtual CPU directly
//!   into 64-bit long mode at a chosen entry point (`regs`);
//! - the shared-memory syscall trampoline ("sallyport") of fixed-size
//!   request/reply blocks that the guest raises by a two-byte port write
//!   (`sallyport`);
//! - classifying one hardware exit per step and routing syscall requests
//!   to a passthrough, balloon-memory or memory-info outcome (`router`,
//!   `dispatch`).
//!
//! Blocking virtualization calls (resuming the CPU, reading and writing the
//! hardware registers, allocating host memory) stay with the caller; the
//! functions here take their results as plain values and are verified for
//! every value the caller can hand in.

use vstd::prelude::*;

pub mod dispatch;
pub mod regs;
pub mod router;
pub mod sallyport;

verus! {

/// The outcome of one successfully dispatched step: either a syscall request
/// is ready at a block for the host to execute, or the guest may simply be
/// resumed.
#[derive(Clone, Copy, Debug, PartialEq, Eq, Structural)]
pub enum Command {
    /// A request in the block at this index awaits the host's generic
    /// syscall executor.
    SysCall { block: usize },
    /// No further host action is needed before resuming the guest.
    Continue,
}

/// Every way a dispatch step can fail. No failure is retried here: each one
/// surfaces to the caller driving the exit loop.
#[derive(Clone, Copy, Debug)]
pub enum StepError {
    /// A port-output exit arrived on a port other than the trigger port:
    /// a protocol violation, fatal to the step.
    UnexpectedPort { port: u16 },
    /// A write on the trigger port was not the two-byte block index the
    /// protocol prescribes.
    InvalidTrigger { len: usize },
    /// The guest-supplied block index does not address a block; the index is
    /// adversarial input and is rejected before any dereference.
    BlockOutOfBounds { index: usize, count: usize },
    /// The syscall number is neither in the passthrough range nor one of the
    /// keep-specific operations.
    UnsupportedSyscall { num: i64 },
    /// The reply payload does not fit the block's scratch area.
    ScratchExhausted { needed: usize, have: usize },
    /// A hardware exit other than the expected port output. In a diagnostics
    /// configuration the register snapshot is carried along; otherwise it is
    /// withheld on purpose.
    UnhandledExit { reason: u32, regs: Option<crate::regs::GenRegs> },
}

} // verus!
