//! What the KVM introspection channel hands over, as plain values.

use vstd::prelude::*;

verus! {

/// A control register whose writes KVM can trap.
#[derive(Debug, Clone, Copy, PartialEq, Eq, Structural)]
pub enum KvmCr {
    Cr0,
    Cr3,
    Cr4,
}

/// What a VCPU reported when it stopped.
#[derive(Debug, Clone, Copy, PartialEq, Eq, Structural)]
pub enum KvmEventKind {
    /// The VCPU reached a safe point after a pause request.
    PauseVcpu,
    /// The VCPU wrote a trapped control register.
    Cr { cr_type: KvmCr, new: u64, old: u64 },
    /// A trap the neutral model has no variant for: an MSR write, a
    /// breakpoint, a page fault.
    Other,
}

/// One event popped from the channel. Its VCPU waits for the reply.
#[derive(Debug, Clone, Copy, PartialEq, Eq, Structural)]
pub struct KvmEvent {
    pub vcpu: u16,
    pub kind: KvmEventKind,
}

/// How KVM is told to let a VCPU go on.
#[derive(Debug, Clone, Copy, PartialEq, Eq, Structural)]
pub enum KvmEventReply {
    Continue,
}

/// The general-purpose registers of one VCPU.
#[derive(Debug, Clone, Copy, PartialEq, Eq, Default, Structural)]
pub struct KvmRegs {
    pub rax: u64,
    pub rbx: u64,
    pub rcx: u64,
    pub rdx: u64,
    pub rsi: u64,
    pub rdi: u64,
    pub rsp: u64,
    pub rbp: u64,
    pub r8: u64,
    pub r9: u64,
    pub r10: u64,
    pub r11: u64,
    pub r12: u64,
    pub r13: u64,
    pub r14: u64,
    pub r15: u64,
    pub rip: u64,
    pub rflags: u64,
}

/// A segment register.
#[derive(Debug, Clone, Copy, PartialEq, Eq, Default, Structural)]
pub struct KvmSegment {
    pub base: u64,
    pub limit: u32,
    pub selector: u16,
}

/// The special registers of one VCPU.
#[derive(Debug, Clone, Copy, PartialEq, Eq, Default, Structural)]
pub struct KvmSregs {
    pub cs: KvmSegment,
    pub ds: KvmSegment,
    pub es: KvmSegment,
    pub fs: KvmSegment,
    pub gs: KvmSegment,
    pub ss: KvmSegment,
    pub tr: KvmSegment,
    pub ldt: KvmSegment,
    pub cr0: u64,
    pub cr2: u64,
    pub cr3: u64,
    pub cr4: u64,
    pub efer: u64,
    pub apic_base: u64,
}

/// One model-specific register: its index and its value.
#[derive(Debug, Clone, Copy, PartialEq, Eq, Default, Structural)]
pub struct KvmMsrEntry {
    pub index: u32,
    pub data: u64,
}

/// A request to the KVM introspection channel.
#[derive(Debug, Clone, Copy, PartialEq, Eq, Structural)]
pub enum KvmCommand {
    /// Switch the delivery of control-register events of `vcpu` on or off.
    ControlCrEvents { vcpu: u16, enabled: bool },
    /// Trap, or stop trapping, the writes of `vcpu` to `reg`.
    ControlCr { vcpu: u16, reg: KvmCr, enabled: bool },
    /// Read `len` bytes of guest physical memory from `gpa` on.
    ReadPhysical { gpa: u64, len: usize },
    /// Read the registers of `vcpu`.
    GetRegisters { vcpu: u16 },
    /// Ask every VCPU to pause.
    Pause,
    /// Wait up to `ms` milliseconds for an event and pop it.
    WaitEvent { ms: i32 },
    /// Reply `reply` to the event that `vcpu` waits on.
    Reply { vcpu: u16, reply: KvmEventReply },
}

} // verus!
