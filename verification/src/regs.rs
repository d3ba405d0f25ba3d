//! Guest entry initialization: the register state that starts a virtual CPU
//! in 64-bit long mode at a chosen entry point and page-table root, without
//! any firmware boot sequence. This is safe only because the guest image and
//! page tables are prepared by the caller to match exactly this state.

use vstd::prelude::*;

verus! {

/// The general-purpose register file of one virtual CPU, as plain machine
/// words.
#[derive(Clone, Copy, Debug, PartialEq, Eq, Structural)]
pub struct GenRegs {
    pub rax: u64,
    pub rbx: u64,
    pub rcx: u64,
    pub rdx: u64,
    pub rsi: u64,
    pub rdi: u64,
    pub rsp: u64,
    pub rbp: u64,
    pub r8: u64,
    pub r9: u64,
    pub r10: u64,
    pub r11: u64,
    pub r12: u64,
    pub r13: u64,
    pub r14: u64,
    pub r15: u64,
    pub rip: u64,
    pub rflags: u64,
}

/// One segment descriptor, laid out field by field as the virtualization
/// layer consumes it.
#[derive(Clone, Copy, Debug, PartialEq, Eq, Structural)]
pub struct Segment {
    pub base: u64,
    pub limit: u32,
    pub selector: u16,
    pub type_: u8,
    pub present: u8,
    pub dpl: u8,
    pub db: u8,
    pub s: u8,
    pub l: u8,
    pub g: u8,
    pub avl: u8,
    pub unusable: u8,
}

/// The special registers that entry initialization assigns. All other
/// special registers keep their hardware-provided defaults, so only these
/// five are computed here and the caller copies them over.
#[derive(Clone, Copy, Debug, PartialEq, Eq, Structural)]
pub struct SpecialRegUpdate {
    pub cs: Segment,
    pub efer: u64,
    pub cr0: u64,
    pub cr3: u64,
    pub cr4: u64,
}

/// The RFLAGS bit the entry state sets besides the instruction pointer.
pub const RFLAGS_INTERRUPT_ENABLE: u64 = 0x2;

/// Long-mode-enable bit of the extended-feature-enable register.
pub const EFER_LME: u64 = 0x100;

/// Long-mode-active bit of the extended-feature-enable register.
pub const EFER_LMA: u64 = 0x400;

/// Protected-mode-enable bit of the primary control register.
pub const CR0_PE: u64 = 0x1;

/// Coprocessor-monitoring bit of the primary control register.
pub const CR0_MP: u64 = 0x2;

/// Numeric-error-reporting bit of the primary control register.
pub const CR0_NE: u64 = 0x20;

/// Paging-enable bit of the primary control register.
pub const CR0_PG: u64 = 0x8000_0000;

/// Physical-address-extension bit of the auxiliary control register.
pub const CR4_PAE: u64 = 0x20;

/// Relies on x86_64's EferFlags: LONG_MODE_ENABLE is bit 8 and
/// LONG_MODE_ACTIVE is bit 10 of the extended-feature-enable register.
#[verifier::external_body]
fn efer_long_mode_bits() -> (r: u64)
    ensures
        r == EFER_LME | EFER_LMA,
{
    (x86_64::registers::model_specific::EferFlags::LONG_MODE_ENABLE
        | x86_64::registers::model_specific::EferFlags::LONG_MODE_ACTIVE).bits()
}

/// Relies on x86_64's Cr0Flags: PROTECTED_MODE_ENABLE is bit 0,
/// MONITOR_COPROCESSOR bit 1, NUMERIC_ERROR bit 5 and PAGING bit 31 of the
/// primary control register.
#[verifier::external_body]
fn cr0_long_mode_bits() -> (r: u64)
    ensures
        r == CR0_PE | CR0_MP | CR0_NE | CR0_PG,
{
    (x86_64::registers::control::Cr0Flags::PROTECTED_MODE_ENABLE
        | x86_64::registers::control::Cr0Flags::MONITOR_COPROCESSOR
        | x86_64::registers::control::Cr0Flags::NUMERIC_ERROR
        | x86_64::registers::control::Cr0Flags::PAGING).bits()
}

/// Relies on x86_64's Cr4Flags: PHYSICAL_ADDRESS_EXTENSION is bit 5 of the
/// auxiliary control register.
#[verifier::external_body]
fn cr4_long_mode_bits() -> (r: u64)
    ensures
        r == CR4_PAE,
{
    x86_64::registers::control::Cr4Flags::PHYSICAL_ADDRESS_EXTENSION.bits()
}

/// The general registers after entry initialization: instruction pointer at
/// the entry address, the interrupt-enable flag raised, everything else as
/// the hardware provided it.
pub open spec fn spec_entry_gen_regs(regs: GenRegs, entry: u64) -> GenRegs {
    GenRegs {
        rip: entry,
        rflags: regs.rflags | RFLAGS_INTERRUPT_ENABLE,
        rax: regs.rax,
        rbx: regs.rbx,
        rcx: regs.rcx,
        rdx: regs.rdx,
        rsi: regs.rsi,
        rdi: regs.rdi,
        rsp: regs.rsp,
        rbp: regs.rbp,
        r8: regs.r8,
        r9: regs.r9,
        r10: regs.r10,
        r11: regs.r11,
        r12: regs.r12,
        r13: regs.r13,
        r14: regs.r14,
        r15: regs.r15,
    }
}

/// The flat ring-0 64-bit code segment the guest starts in: base 0, maximal
/// limit, present, long mode, page granularity.
pub open spec fn spec_long_mode_code_segment() -> Segment {
    Segment {
        base: 0,
        limit: 0xFFFFF,
        selector: 8,
        type_: 11,
        present: 1,
        dpl: 0,
        db: 0,
        s: 1,
        l: 1,
        g: 1,
        avl: 0,
        unusable: 0,
    }
}

/// The special registers after entry initialization: long mode enabled and
/// active, protected mode with paging and numeric error reporting, physical
/// address extension, and the page-table root at the given address.
pub open spec fn spec_long_mode_special_regs(cr3: u64) -> SpecialRegUpdate {
    SpecialRegUpdate {
        cs: spec_long_mode_code_segment(),
        efer: EFER_LME | EFER_LMA,
        cr0: CR0_PE | CR0_MP | CR0_NE | CR0_PG,
        cr3: cr3,
        cr4: CR4_PAE,
    }
}

/// Computes the general registers that start the guest at `entry`, from the
/// hardware-provided defaults in `regs`.
pub fn entry_gen_regs(regs: &GenRegs, entry: u64) -> (r: GenRegs)
    ensures
        r == spec_entry_gen_regs(*regs, entry),
{
    GenRegs {
        rip: entry,
        rflags: regs.rflags | RFLAGS_INTERRUPT_ENABLE,
        rax: regs.rax,
        rbx: regs.rbx,
        rcx: regs.rcx,
        rdx: regs.rdx,
        rsi: regs.rsi,
        rdi: regs.rdi,
        rsp: regs.rsp,
        rbp: regs.rbp,
        r8: regs.r8,
        r9: regs.r9,
        r10: regs.r10,
        r11: regs.r11,
        r12: regs.r12,
        r13: regs.r13,
        r14: regs.r14,
        r15: regs.r15,
    }
}

/// Computes the special-register assignment that places the guest in 64-bit
/// long mode with its page tables rooted at `cr3`.
pub fn long_mode_special_regs(cr3: u64) -> (r: SpecialRegUpdate)
    ensures
        r == spec_long_mode_special_regs(cr3),
{
    SpecialRegUpdate {
        cs: Segment {
            base: 0,
            limit: 0xFFFFF,
            selector: 8,
            type_: 11,
            present: 1,
            dpl: 0,
            db: 0,
            s: 1,
            l: 1,
            g: 1,
            avl: 0,
            unusable: 0,
        },
        efer: efer_long_mode_bits(),
        cr0: cr0_long_mode_bits(),
        cr3: cr3,
        cr4: cr4_long_mode_bits(),
    }
}

/// Law: for any entry address, page-table root and hardware defaults, the
/// post-initialization state has the instruction pointer at the entry
/// address, the interrupt-enable flag bit set, the page-table-root register
/// at the given root, the long-mode-enable and long-mode-active bits set,
/// and the code segment configured for 64-bit ring-0 execution.
pub proof fn lemma_entry_state(regs: GenRegs, entry: u64, cr3: u64)
    ensures
        spec_entry_gen_regs(regs, entry).rip == entry,
        spec_entry_gen_regs(regs, entry).rflags & RFLAGS_INTERRUPT_ENABLE
            == RFLAGS_INTERRUPT_ENABLE,
        spec_long_mode_special_regs(cr3).cr3 == cr3,
        spec_long_mode_special_regs(cr3).efer & EFER_LME != 0,
        spec_long_mode_special_regs(cr3).efer & EFER_LMA != 0,
        spec_long_mode_special_regs(cr3).cs.l == 1,
        spec_long_mode_special_regs(cr3).cs.dpl == 0,
        spec_long_mode_special_regs(cr3).cs.present == 1,
        spec_long_mode_special_regs(cr3).cs.type_ == 11,
        spec_long_mode_special_regs(cr3).cs.s == 1,
        spec_long_mode_special_regs(cr3).cs.base == 0,
        spec_long_mode_special_regs(cr3).cs.limit == 0xFFFFF,
        spec_long_mode_special_regs(cr3).cs.g == 1,
{
    let f = regs.rflags;
    assert((f | 0x2u64) & 0x2u64 == 0x2u64) by (bit_vector);
    assert((0x100u64 | 0x400u64) & 0x100u64 != 0) by (bit_vector);
    assert((0x100u64 | 0x400u64) & 0x400u64 != 0) by (bit_vector);
}

} // verus!
