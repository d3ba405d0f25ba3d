//! The syscall request router: classifies the signed syscall number read
//! from an addressed block and carries out the two keep-specific operations.
//! Numbers in the generic range are not acted on here; the host's syscall
//! executor interprets the request and writes the reply.

use vstd::prelude::*;

use crate::sallyport::{mem_info_bytes, Block, Reply, MEM_INFO_BYTES};
use crate::{Command, StepError};

verus! {

/// The top of the generic passthrough syscall range (inclusive).
pub const SYSCALL_PASSTHROUGH_MAX: i64 = 512;

/// Keep-specific request: map more memory into the guest.
pub const SYS_BALLOON_MEMORY: i64 = 0x8000_0000;

/// Keep-specific request: report the memory layout of the keep.
pub const SYS_MEM_INFO: i64 = 0x8000_0001;

/// What the router decides for one syscall number.
#[derive(Clone, Copy, Debug, PartialEq, Eq, Structural)]
pub enum Route {
    /// A generic syscall, forwarded to the host's syscall executor.
    Passthrough,
    /// The balloon-memory operation, handled here.
    Balloon,
    /// The memory-info operation, handled here.
    MemInfo,
    /// No defined outcome: rejected.
    Unsupported,
}

/// The total classification of syscall numbers: 0 through 512 inclusive pass
/// through, the two keep-specific numbers are handled here, everything else
/// is unsupported.
pub open spec fn route_of(num: i64) -> Route {
    if 0 <= num <= SYSCALL_PASSTHROUGH_MAX {
        Route::Passthrough
    } else if num == SYS_BALLOON_MEMORY {
        Route::Balloon
    } else if num == SYS_MEM_INFO {
        Route::MemInfo
    } else {
        Route::Unsupported
    }
}

/// Classifies a syscall number.
pub fn route(num: i64) -> (r: Route)
    ensures
        r == route_of(num),
{
    if 0 <= num && num <= SYSCALL_PASSTHROUGH_MAX {
        Route::Passthrough
    } else if num == SYS_BALLOON_MEMORY {
        Route::Balloon
    } else if num == SYS_MEM_INFO {
        Route::MemInfo
    } else {
        Route::Unsupported
    }
}

/// Serves a memory-info request on `block`: writes the virtual-address
/// offset and the slot count through the bounded cursor at the start of the
/// scratch area, then a success reply of two zero words. A payload that does
/// not fit the scratch area is a reportable allocation error and leaves the
/// block untouched.
pub fn serve_mem_info(block: &mut Block, virt_offset: i64, mem_slots: u32) -> (r: Result<
    Command,
    StepError,
>)
    ensures
        old(block).scratch.len() >= MEM_INFO_BYTES ==> {
            &&& r == Ok::<Command, StepError>(Command::Continue)
            &&& final(block).req == old(block).req
            &&& final(block).rep == (Reply { status: 0, ret0: 0, ret1: 0 })
            &&& final(block).scratch@ =~= mem_info_bytes(virt_offset, mem_slots) + old(
                block,
            ).scratch@.skip(MEM_INFO_BYTES as int)
        },
        old(block).scratch.len() < MEM_INFO_BYTES ==> {
            &&& r == Err::<Command, StepError>(
                StepError::ScratchExhausted {
                    needed: MEM_INFO_BYTES,
                    have: old(block).scratch.len(),
                },
            )
            &&& *final(block) == *old(block)
        },
{
    if block.scratch.len() < MEM_INFO_BYTES {
        return Err(
            StepError::ScratchExhausted { needed: MEM_INFO_BYTES, have: block.scratch.len() },
        );
    }
    let vo = virt_offset as u64;
    block.scratch[0] = (vo & 0xff) as u8;
    block.scratch[1] = ((vo >> 8) & 0xff) as u8;
    block.scratch[2] = ((vo >> 16) & 0xff) as u8;
    block.scratch[3] = ((vo >> 24) & 0xff) as u8;
    block.scratch[4] = ((vo >> 32) & 0xff) as u8;
    block.scratch[5] = ((vo >> 40) & 0xff) as u8;
    block.scratch[6] = ((vo >> 48) & 0xff) as u8;
    block.scratch[7] = ((vo >> 56) & 0xff) as u8;
    block.scratch[8] = (mem_slots & 0xff) as u8;
    block.scratch[9] = ((mem_slots >> 8) & 0xff) as u8;
    block.scratch[10] = ((mem_slots >> 16) & 0xff) as u8;
    block.scratch[11] = ((mem_slots >> 24) & 0xff) as u8;
    block.rep = Reply { status: 0, ret0: 0, ret1: 0 };
    Ok(Command::Continue)
}

/// Finishes a balloon-memory request from the outcome the host's memory
/// allocator handed back. On success the reply is the allocated address and
/// a zero second word and the guest may resume; a failure is propagated
/// unchanged, with no partial reply written.
pub fn finish_balloon<E>(block: &mut Block, alloc: Result<u64, E>) -> (r: Result<Command, E>)
    ensures
        alloc matches Ok(addr) ==> {
            &&& r == Ok::<Command, E>(Command::Continue)
            &&& final(block).req == old(block).req
            &&& final(block).scratch@ == old(block).scratch@
            &&& final(block).rep == (Reply { status: 0, ret0: addr, ret1: 0 })
        },
        alloc matches Err(e) ==> {
            &&& r == Err::<Command, E>(e)
            &&& *final(block) == *old(block)
        },
{
    match alloc {
        Ok(addr) => {
            block.rep = Reply { status: 0, ret0: addr, ret1: 0 };
            Ok(Command::Continue)
        },
        Err(e) => Err(e),
    }
}

} // verus!
