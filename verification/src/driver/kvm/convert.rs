//! From KVM's events and register layout to the neutral model, and from the
//! neutral model to KVM's for what the caller hands in.

use crate::api::{CrType, EventReplyType, EventType, Registers, VmiError, X86Registers, segment_reg};
use crate::driver::kvm::native::{
    KvmCr, KvmEventKind, KvmEventReply, KvmMsrEntry, KvmRegs, KvmSegment, KvmSregs,
};
use vstd::prelude::*;

verus! {

/// The indices of the model-specific registers that a snapshot reports.
pub const MSR_SYSENTER_CS: u32 = 0x174;

pub const MSR_SYSENTER_ESP: u32 = 0x175;

pub const MSR_SYSENTER_EIP: u32 = 0x176;

pub const MSR_EFER: u32 = 0xc000_0080;

pub const MSR_STAR: u32 = 0xc000_0081;

pub const MSR_LSTAR: u32 = 0xc000_0082;

/// The neutral name of a control register that KVM traps.
pub open spec fn neutral_cr(cr: KvmCr) -> CrType {
    match cr {
        KvmCr::Cr0 => CrType::Cr0,
        KvmCr::Cr3 => CrType::Cr3,
        KvmCr::Cr4 => CrType::Cr4,
    }
}

/// KVM's name of a control register, where KVM can trap it. It cannot trap
/// writes to CR2.
pub open spec fn native_cr(cr: CrType) -> Option<KvmCr> {
    match cr {
        CrType::Cr0 => Some(KvmCr::Cr0),
        CrType::Cr2 => None,
        CrType::Cr3 => Some(KvmCr::Cr3),
        CrType::Cr4 => Some(KvmCr::Cr4),
    }
}

/// What the caller is told of a native event kind. A pause acknowledgement
/// is never an event of the caller's: one that turns up outside a drain
/// means the bookkeeping is off. A trap without a neutral variant is
/// declined.
pub open spec fn neutral_kind(kind: KvmEventKind) -> Result<EventType, VmiError> {
    match kind {
        KvmEventKind::Cr { cr_type, new, old } => Ok(
            EventType::Cr { cr_type: neutral_cr(cr_type), new, old },
        ),
        KvmEventKind::PauseVcpu => Err(VmiError::ProtocolDesync),
        KvmEventKind::Other => Err(VmiError::UnsupportedOperation),
    }
}

/// KVM's reply for a neutral one.
pub open spec fn native_reply(reply: EventReplyType) -> KvmEventReply {
    match reply {
        EventReplyType::Continue => KvmEventReply::Continue,
    }
}

/// A segment register of the snapshot; the three fields have the native widths.
pub open spec fn neutral_segment(segment: KvmSegment) -> segment_reg {
    segment_reg { base: segment.base, limit: segment.limit, selector: segment.selector }
}

/// `at` is the place of the first entry for the register `index`.
pub open spec fn first_msr(entries: Seq<KvmMsrEntry>, index: u32, at: int) -> bool {
    &&& 0 <= at < entries.len()
    &&& entries[at].index == index
    &&& forall|j: int| 0 <= j < at ==> entries[j].index != index
}

/// The value of the model-specific register `index`: that of the first entry
/// for it, and zero where there is none.
pub open spec fn msr_value(entries: Seq<KvmMsrEntry>, index: u32) -> u64 {
    if exists|at: int| first_msr(entries, index, at) {
        entries[choose|at: int| first_msr(entries, index, at)].data
    } else {
        0
    }
}

/// The snapshot for a native register file. Every field is taken over
/// unchanged: the native registers have the canonical widths.
pub open spec fn neutral_registers(
    regs: KvmRegs,
    sregs: KvmSregs,
    msrs: Seq<KvmMsrEntry>,
) -> Registers {
    Registers::X86(
        X86Registers {
            rax: regs.rax,
            rbx: regs.rbx,
            rcx: regs.rcx,
            rdx: regs.rdx,
            rsi: regs.rsi,
            rdi: regs.rdi,
            rsp: regs.rsp,
            rbp: regs.rbp,
            r8: regs.r8,
            r9: regs.r9,
            r10: regs.r10,
            r11: regs.r11,
            r12: regs.r12,
            r13: regs.r13,
            r14: regs.r14,
            r15: regs.r15,
            rip: regs.rip,
            rflags: regs.rflags,
            cr0: sregs.cr0,
            cr2: sregs.cr2,
            cr3: sregs.cr3,
            cr4: sregs.cr4,
            sysenter_cs: msr_value(msrs, MSR_SYSENTER_CS),
            sysenter_esp: msr_value(msrs, MSR_SYSENTER_ESP),
            sysenter_eip: msr_value(msrs, MSR_SYSENTER_EIP),
            msr_efer: msr_value(msrs, MSR_EFER),
            msr_star: msr_value(msrs, MSR_STAR),
            msr_lstar: msr_value(msrs, MSR_LSTAR),
            efer: sregs.efer,
            apic_base: sregs.apic_base,
            cs: neutral_segment(sregs.cs),
            ds: neutral_segment(sregs.ds),
            es: neutral_segment(sregs.es),
            fs: neutral_segment(sregs.fs),
            gs: neutral_segment(sregs.gs),
            ss: neutral_segment(sregs.ss),
            tr: neutral_segment(sregs.tr),
            ldt: neutral_segment(sregs.ldt),
        },
    )
}

/// The two namings of the control registers agree: a register that KVM
/// traps comes back under its own name, and a neutral name stands for the
/// native one it is given for.
pub proof fn lemma_cr_round_trip(cr: KvmCr, neutral: CrType)
    ensures
        native_cr(neutral_cr(cr)) == Some(cr),
        native_cr(neutral) == Some(cr) <==> neutral_cr(cr) == neutral,
{
}

/// The neutral name of a control register that KVM traps.
pub fn cr_from_native(cr: KvmCr) -> (neutral: CrType)
    ensures
        neutral == neutral_cr(cr),
{
    match cr {
        KvmCr::Cr0 => CrType::Cr0,
        KvmCr::Cr3 => CrType::Cr3,
        KvmCr::Cr4 => CrType::Cr4,
    }
}

/// KVM's name of a control register, if KVM can trap it.
pub fn cr_to_native(cr: CrType) -> (native: Option<KvmCr>)
    ensures
        native == native_cr(cr),
{
    match cr {
        CrType::Cr0 => Some(KvmCr::Cr0),
        CrType::Cr2 => None,
        CrType::Cr3 => Some(KvmCr::Cr3),
        CrType::Cr4 => Some(KvmCr::Cr4),
    }
}

/// What the caller is told of a native event kind.
pub fn event_kind_from_native(kind: KvmEventKind) -> (neutral: Result<EventType, VmiError>)
    ensures
        neutral == neutral_kind(kind),
{
    match kind {
        KvmEventKind::Cr { cr_type, new, old } => Ok(
            EventType::Cr { cr_type: cr_from_native(cr_type), new, old },
        ),
        KvmEventKind::PauseVcpu => Err(VmiError::ProtocolDesync),
        KvmEventKind::Other => Err(VmiError::UnsupportedOperation),
    }
}

/// KVM's reply for a neutral one.
pub fn reply_to_native(reply: EventReplyType) -> (native: KvmEventReply)
    ensures
        native == native_reply(reply),
{
    match reply {
        EventReplyType::Continue => KvmEventReply::Continue,
    }
}

/// A segment register of the snapshot.
pub fn segment_from_native(segment: &KvmSegment) -> (neutral: segment_reg)
    ensures
        neutral == neutral_segment(*segment),
{
    segment_reg { base: segment.base, limit: segment.limit, selector: segment.selector }
}

/// The value of the model-specific register `index` among `entries`.
pub fn find_msr(entries: &Vec<KvmMsrEntry>, index: u32) -> (value: u64)
    ensures
        value == msr_value(entries@, index),
{
    let mut i: usize = 0;
    while i < entries.len()
        invariant
            i <= entries.len(),
            forall|j: int| 0 <= j < i ==> entries@[j].index != index,
        decreases entries.len() - i,
    {
        if entries[i].index == index {
            assert(first_msr(entries@, index, i as int));
            return entries[i].data;
        }
        i = i + 1;
    }
    0
}

/// The snapshot for the register file that the channel answered with.
pub fn registers_from_native(regs: &KvmRegs, sregs: &KvmSregs, msrs: &Vec<KvmMsrEntry>) -> (snapshot:
    Registers)
    ensures
        snapshot == neutral_registers(*regs, *sregs, msrs@),
{
    Registers::X86(
        X86Registers {
            rax: regs.rax,
            rbx: regs.rbx,
            rcx: regs.rcx,
            rdx: regs.rdx,
            rsi: regs.rsi,
            rdi: regs.rdi,
            rsp: regs.rsp,
            rbp: regs.rbp,
            r8: regs.r8,
            r9: regs.r9,
            r10: regs.r10,
            r11: regs.r11,
            r12: regs.r12,
            r13: regs.r13,
            r14: regs.r14,
            r15: regs.r15,
            rip: regs.rip,
            rflags: regs.rflags,
            cr0: sregs.cr0,
            cr2: sregs.cr2,
            cr3: sregs.cr3,
            cr4: sregs.cr4,
            sysenter_cs: find_msr(msrs, MSR_SYSENTER_CS),
            sysenter_esp: find_msr(msrs, MSR_SYSENTER_ESP),
            sysenter_eip: find_msr(msrs, MSR_SYSENTER_EIP),
            msr_efer: find_msr(msrs, MSR_EFER),
            msr_star: find_msr(msrs, MSR_STAR),
            msr_lstar: find_msr(msrs, MSR_LSTAR),
            efer: sregs.efer,
            apic_base: sregs.apic_base,
            cs: segment_from_native(&sregs.cs),
            ds: segment_from_native(&sregs.ds),
            es: segment_from_native(&sregs.es),
            fs: segment_from_native(&sregs.fs),
            gs: segment_from_native(&sregs.gs),
            ss: segment_from_native(&sregs.ss),
            tr: segment_from_native(&sregs.tr),
            ldt: segment_from_native(&sregs.ldt),
        },
    )
}

} // verus!
