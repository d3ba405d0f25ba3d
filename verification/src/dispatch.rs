//! The VM exit dispatcher: a single-step state machine that interprets one
//! hardware exit per invocation. A two-byte write on the trigger port is a
//! sallyport request and goes to the router; a write on any other port is a
//! protocol violation; every other exit reason is fatal to the step, with
//! the register snapshot carried along only in a diagnostics configuration.
//!
//! The caller resumes the virtual CPU, hands the exit in as plain values,
//! performs the one action a `Phase::NeedAlloc` outcome asks for, and feeds
//! the allocator's answer to `finish_balloon`.

use vstd::prelude::*;

use crate::regs::GenRegs;
use crate::router::{route_of, serve_mem_info, Route};
use crate::sallyport::{
    decode_block_index, mem_info_bytes, spec_block_index, Reply, Sallyport, MEM_INFO_BYTES,
    SYSCALL_TRIGGER_PORT,
};
use crate::{Command, StepError};

verus! {

/// One hardware exit of the virtual CPU, as plain values. `Other` carries
/// the numeric exit reason and, when the caller fetched one, a snapshot of
/// the general registers for diagnostics.
#[derive(Debug)]
pub enum VmExit {
    IoOut { port: u16, data: Vec<u8> },
    Other { reason: u32, regs: Option<GenRegs> },
}

/// What one dispatched step asks of the caller: either the step is done with
/// a command, or the host must allocate guest memory and hand the outcome to
/// `finish_balloon` for the same block.
#[derive(Clone, Copy, Debug, PartialEq, Eq, Structural)]
pub enum Phase {
    Done(Command),
    NeedAlloc { block: usize, pages: u64 },
}

/// A two-byte write on the designated trigger port: the only exit that
/// carries a sallyport request.
pub open spec fn is_trigger_write(exit: VmExit) -> bool {
    &&& exit is IoOut
    &&& exit->port == SYSCALL_TRIGGER_PORT
    &&& exit->data@.len() == 2
}

/// Dispatches one hardware exit against the sallyport region. `virt_offset`
/// and `mem_slots` are the memory-info answers the surrounding keep state
/// provides; `diag` says whether error reports may carry register snapshots.
/// The guest controls the exit payload and every block field, so every value
/// of them has a defined outcome here.
pub fn dispatch_exit(
    sallyport: &mut Sallyport,
    exit: &VmExit,
    virt_offset: i64,
    mem_slots: u32,
    diag: bool,
) -> (r: Result<Phase, StepError>)
    ensures
        // Any exit but the trigger write leaves every block untouched.
        !is_trigger_write(*exit) ==> final(sallyport).blocks@ == old(sallyport).blocks@,
        // Exits other than port output are fatal; the register snapshot is
        // withheld outside diagnostics configurations.
        *exit matches VmExit::Other { reason, regs } ==> r == Err::<Phase, StepError>(
            StepError::UnhandledExit { reason, regs: if diag { regs } else { None } },
        ),
        // Port output anywhere but the trigger port is a protocol violation,
        // never a command; so is a trigger write of the wrong width.
        *exit matches VmExit::IoOut { port, data } ==> {
            &&& port != SYSCALL_TRIGGER_PORT ==> r == Err::<Phase, StepError>(
                StepError::UnexpectedPort { port },
            )
            &&& port == SYSCALL_TRIGGER_PORT && data@.len() != 2 ==> r == Err::<
                Phase,
                StepError,
            >(StepError::InvalidTrigger { len: data@.len() as usize })
        },
        // The trigger write itself: decode the index, reject it when out of
        // bounds, and otherwise route the addressed block's request.
        is_trigger_write(*exit) ==> {
            let data = exit->data;
            let idx = spec_block_index(data@[0], data@[1]);
            let count = old(sallyport).blocks@.len();
            &&& idx >= count ==> {
                &&& r == Err::<Phase, StepError>(
                    StepError::BlockOutOfBounds { index: idx as usize, count: count as usize },
                )
                &&& final(sallyport).blocks@ == old(sallyport).blocks@
            }
            &&& idx < count ==> {
                let b = old(sallyport).blocks@[idx];
                &&& route_of(b.req.num) == Route::Passthrough ==> {
                    &&& r == Ok::<Phase, StepError>(
                        Phase::Done(Command::SysCall { block: idx as usize }),
                    )
                    &&& final(sallyport).blocks@ == old(sallyport).blocks@
                }
                &&& route_of(b.req.num) == Route::Balloon ==> {
                    &&& r == Ok::<Phase, StepError>(
                        Phase::NeedAlloc { block: idx as usize, pages: b.req.arg[0] },
                    )
                    &&& final(sallyport).blocks@ == old(sallyport).blocks@
                }
                &&& route_of(b.req.num) == Route::MemInfo && b.scratch.len() >= MEM_INFO_BYTES
                    ==> {
                    &&& r == Ok::<Phase, StepError>(Phase::Done(Command::Continue))
                    &&& final(sallyport).blocks@.len() == count
                    &&& forall|j: int|
                        0 <= j < count && j != idx ==> final(sallyport).blocks@[j] == old(
                            sallyport,
                        ).blocks@[j]
                    &&& final(sallyport).blocks@[idx].req == b.req
                    &&& final(sallyport).blocks@[idx].rep == (Reply {
                        status: 0,
                        ret0: 0,
                        ret1: 0,
                    })
                    &&& final(sallyport).blocks@[idx].scratch@ =~= mem_info_bytes(
                        virt_offset,
                        mem_slots,
                    ) + b.scratch@.skip(MEM_INFO_BYTES as int)
                }
                &&& route_of(b.req.num) == Route::MemInfo && b.scratch.len() < MEM_INFO_BYTES
                    ==> {
                    &&& r == Err::<Phase, StepError>(
                        StepError::ScratchExhausted {
                            needed: MEM_INFO_BYTES,
                            have: b.scratch.len(),
                        },
                    )
                    &&& final(sallyport).blocks@ == old(sallyport).blocks@
                }
                &&& route_of(b.req.num) == Route::Unsupported ==> {
                    &&& r == Err::<Phase, StepError>(
                        StepError::UnsupportedSyscall { num: b.req.num },
                    )
                    &&& final(sallyport).blocks@ == old(sallyport).blocks@
                }
            }
        },
{
    match exit {
        VmExit::IoOut { port, data } => {
            if *port != SYSCALL_TRIGGER_PORT {
                Err(StepError::UnexpectedPort { port: *port })
            } else if data.len() != 2 {
                Err(StepError::InvalidTrigger { len: data.len() })
            } else {
                let idx = decode_block_index(data[0], data[1]);
                if idx >= sallyport.blocks.len() {
                    Err(
                        StepError::BlockOutOfBounds {
                            index: idx,
                            count: sallyport.blocks.len(),
                        },
                    )
                } else {
                    let num = sallyport.blocks[idx].req.num;
                    match crate::router::route(num) {
                        Route::Passthrough => Ok(Phase::Done(Command::SysCall { block: idx })),
                        Route::Balloon => {
                            let pages = sallyport.blocks[idx].req.arg[0];
                            Ok(Phase::NeedAlloc { block: idx, pages })
                        },
                        Route::MemInfo => {
                            let block = &mut sallyport.blocks[idx];
                            match serve_mem_info(block, virt_offset, mem_slots) {
                                Ok(c) => Ok(Phase::Done(c)),
                                Err(e) => Err(e),
                            }
                        },
                        Route::Unsupported => Err(StepError::UnsupportedSyscall { num }),
                    }
                }
            }
        },
        VmExit::Other { reason, regs } => {
            Err(
                StepError::UnhandledExit {
                    reason: *reason,
                    regs: if diag {
                        *regs
                    } else {
                        None
                    },
                },
            )
        },
    }
}

} // verus!
