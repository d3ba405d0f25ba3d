//! The sallyport block protocol: a shared-memory array of fixed-size
//! request/reply slots crossing the guest/host trust boundary. The guest
//! raises a request by writing a two-byte little-endian block index to the
//! trigger port; both the index and every block field are guest-controlled
//! and treated as adversarial input.

use vstd::prelude::*;

verus! {

/// The single I/O port this core expects guest writes on.
pub const SYSCALL_TRIGGER_PORT: u16 = 0xFF;

/// How many argument words a request carries.
pub const REQUEST_ARGS: usize = 7;

/// The request section of a block: a signed syscall number and its argument
/// words, all written by the guest.
#[derive(Clone, Copy, Debug, PartialEq, Eq)]
pub struct Request {
    pub num: i64,
    pub arg: [u64; 7],
}

/// The reply section of a block: a status word and two result words, written
/// by the host.
#[derive(Clone, Copy, Debug, PartialEq, Eq, Structural)]
pub struct Reply {
    pub status: i64,
    pub ret0: u64,
    pub ret1: u64,
}

/// One fixed-size slot of the sallyport region. The trailing scratch area
/// takes variable reply payloads through a bounded bump cursor; its length
/// is the block's scratch capacity.
#[derive(Clone, Debug)]
pub struct Block {
    pub req: Request,
    pub rep: Reply,
    pub scratch: Vec<u8>,
}

/// The sallyport region: the blocks the guest may address, in slot order.
#[derive(Debug)]
pub struct Sallyport {
    pub blocks: Vec<Block>,
}

/// How many scratch bytes a serialized memory-info payload takes: a signed
/// 64-bit virtual-address offset followed by a 32-bit slot count.
pub const MEM_INFO_BYTES: usize = 12;

/// The little-endian bytes of a 64-bit word, lowest byte first.
pub open spec fn le_bytes_64(v: u64) -> Seq<u8> {
    seq![
        (v & 0xff) as u8,
        ((v >> 8) & 0xff) as u8,
        ((v >> 16) & 0xff) as u8,
        ((v >> 24) & 0xff) as u8,
        ((v >> 32) & 0xff) as u8,
        ((v >> 40) & 0xff) as u8,
        ((v >> 48) & 0xff) as u8,
        ((v >> 56) & 0xff) as u8,
    ]
}

/// The little-endian bytes of a 32-bit word, lowest byte first.
pub open spec fn le_bytes_32(v: u32) -> Seq<u8> {
    seq![
        (v & 0xff) as u8,
        ((v >> 8) & 0xff) as u8,
        ((v >> 16) & 0xff) as u8,
        ((v >> 24) & 0xff) as u8,
    ]
}

/// The wire form of a memory-info payload: the virtual-address offset of the
/// first memory region and the number of hardware memory slots, both little
/// endian.
pub open spec fn mem_info_bytes(virt_offset: i64, mem_slots: u32) -> Seq<u8> {
    le_bytes_64(virt_offset as u64) + le_bytes_32(mem_slots)
}

/// The block index a two-byte trigger write denotes, little-endian.
pub open spec fn spec_block_index(lo: u8, hi: u8) -> int {
    lo + hi * 0x100
}

/// Decodes the two bytes of a trigger write into the block index, little
/// endian: the low byte first.
pub fn decode_block_index(lo: u8, hi: u8) -> (r: usize)
    ensures
        r == spec_block_index(lo, hi),
{
    lo as usize + (hi as usize) * 0x100
}

} // verus!
