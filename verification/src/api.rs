//! The neutral data model and the capability interface.
//!
//! Registers, events and errors are plain values without hidden state, so they
//! can be handed across a foreign-function or serialization boundary
//! unchanged. [`Introspectable`] is the operation set every backend exposes;
//! an operation a backend leaves out fails with
//! [`VmiError::UnsupportedOperation`].

use vstd::prelude::*;

verus! {

/// Which hypervisor technology backs an instance.
#[derive(Debug, Clone, Copy, PartialEq, Eq, Structural)]
pub enum DriverType {
    Dummy,
    HyperV,
    KVM,
    VirtualBox,
    Xen,
}

/// Why a capability operation failed.
#[derive(Debug, PartialEq, Eq)]
pub enum VmiError {
    /// The handshake with the hypervisor failed; the instance is unusable.
    ConnectionError(String),
    /// The backend does not implement the operation.
    UnsupportedOperation,
    /// An argument is out of range: a VCPU index, a register id, an empty buffer.
    InvalidArgument,
    /// The hypervisor reported an error; the text is the backend's own.
    BackendOperationFailed(String),
    /// The event bookkeeping and the hypervisor disagree. Fatal.
    ProtocolDesync,
}

/// One operation of the capability interface.
#[derive(Debug, Clone, Copy, PartialEq, Eq, Structural)]
pub enum Capability {
    VcpuCount,
    ReadPhysical,
    MaxPhysicalAddr,
    ReadRegisters,
    WriteRegisters,
    Pause,
    Resume,
    ToggleIntercept,
    Listen,
    ReplyEvent,
}

/// A segment descriptor as the snapshot reports it.
#[allow(non_camel_case_types)]
#[derive(Debug, Clone, Copy, PartialEq, Eq, Default, Structural)]
pub struct segment_reg {
    pub base: u64,
    pub limit: u32,
    pub selector: u16,
}

/// The x86 register file in its widest form.
#[derive(Debug, Clone, Copy, PartialEq, Eq, Default, Structural)]
pub struct X86Registers {
    pub rax: u64,
    pub rbx: u64,
    pub rcx: u64,
    pub rdx: u64,
    pub rsi: u64,
    pub rdi: u64,
    pub rsp: u64,
    pub rbp: u64,
    pub r8: u64,
    pub r9: u64,
    pub r10: u64,
    pub r11: u64,
    pub r12: u64,
    pub r13: u64,
    pub r14: u64,
    pub r15: u64,
    pub rip: u64,
    pub rflags: u64,
    pub cr0: u64,
    pub cr2: u64,
    pub cr3: u64,
    pub cr4: u64,
    pub sysenter_cs: u64,
    pub sysenter_esp: u64,
    pub sysenter_eip: u64,
    pub msr_efer: u64,
    pub msr_star: u64,
    pub msr_lstar: u64,
    pub efer: u64,
    pub apic_base: u64,
    pub cs: segment_reg,
    pub ds: segment_reg,
    pub es: segment_reg,
    pub fs: segment_reg,
    pub gs: segment_reg,
    pub ss: segment_reg,
    pub tr: segment_reg,
    pub ldt: segment_reg,
}

/// A point-in-time register snapshot, tagged by architecture.
#[derive(Debug, Clone, Copy, PartialEq, Eq, Structural)]
pub enum Registers {
    X86(X86Registers),
}

/// A control register whose writes can be trapped.
#[derive(Debug, Clone, Copy, PartialEq, Eq, Structural)]
pub enum CrType {
    Cr0,
    Cr2,
    Cr3,
    Cr4,
}

/// A category of trap that can be switched on and off per VCPU.
#[derive(Debug, Clone, Copy, PartialEq, Eq, Structural)]
pub enum InterceptType {
    Cr(CrType),
}

/// What the guest did to be trapped.
#[derive(Debug, Clone, Copy, PartialEq, Eq, Structural)]
pub enum EventType {
    Cr { cr_type: CrType, new: u64, old: u64 },
}

/// One trap the backend intercepted. The VCPU stays halted until the event
/// is replied to.
#[derive(Debug, Clone, Copy, PartialEq, Eq, Structural)]
pub struct Event {
    pub vcpu: u16,
    pub kind: EventType,
}

/// How a trapped VCPU is to go on.
#[derive(Debug, Clone, Copy, PartialEq, Eq, Structural)]
pub enum EventReplyType {
    Continue,
}

/// Widens a 32-bit backend register to the canonical 64-bit field by zero
/// extension.
pub fn zero_extend_u32(value: u32) -> (wide: u64)
    ensures
        wide == value,
{
    value as u64
}

/// The operation set of a backend.
///
/// Every operation but [`Introspectable::get_driver_type`] has a body that
/// declines it. A backend overrides the ones it implements and says which in
/// `supports`; the ones it leaves out keep failing with
/// [`VmiError::UnsupportedOperation`], never with another error. Whatever a
/// backend implements, the number of VCPUs it reports stays the same for as
/// long as the instance lives.
pub trait Introspectable {
    /// Whether this backend implements `capability`. A backend that
    /// overrides nothing implements nothing.
    open spec fn supports(&self, capability: Capability) -> bool {
        false
    }

    /// The number of VCPUs of the domain this instance is bound to. No
    /// operation changes it.
    open spec fn vcpu_count(&self) -> u16 {
        0
    }

    /// The number of VCPUs of the domain. Whenever it is returned it is the
    /// same.
    fn get_vcpu_count(&self) -> (r: Result<u16, VmiError>)
        ensures
            r matches Ok(n) ==> n == self.vcpu_count(),
            !self.supports(Capability::VcpuCount) ==> r == Err::<u16, VmiError>(
                VmiError::UnsupportedOperation,
            ),
    {
        Err(VmiError::UnsupportedOperation)
    }

    /// Fills `buf` with the guest's physical memory from `paddr` on.
    fn read_physical(&self, paddr: u64, buf: &mut [u8]) -> (r: Result<(), VmiError>)
        ensures
            final(buf)@.len() == old(buf)@.len(),
            !self.supports(Capability::ReadPhysical) ==> r == Err::<(), VmiError>(
                VmiError::UnsupportedOperation,
            ),
    {
        Err(VmiError::UnsupportedOperation)
    }

    /// An upper bound of the guest's physical address space.
    fn get_max_physical_addr(&self) -> (r: Result<u64, VmiError>)
        ensures
            !self.supports(Capability::MaxPhysicalAddr) ==> r == Err::<u64, VmiError>(
                VmiError::UnsupportedOperation,
            ),
    {
        Err(VmiError::UnsupportedOperation)
    }

    /// A snapshot of the registers of `vcpu`.
    fn read_registers(&self, vcpu: u16) -> (r: Result<Registers, VmiError>)
        ensures
            !self.supports(Capability::ReadRegisters) ==> r == Err::<Registers, VmiError>(
                VmiError::UnsupportedOperation,
            ),
    {
        Err(VmiError::UnsupportedOperation)
    }

    /// Sets register `reg` of `vcpu` to `value`.
    fn write_registers(&self, vcpu: u16, value: u64, reg: u64) -> (r: Result<(), VmiError>)
        ensures
            !self.supports(Capability::WriteRegisters) ==> r == Err::<(), VmiError>(
                VmiError::UnsupportedOperation,
            ),
    {
        Err(VmiError::UnsupportedOperation)
    }

    /// Asks the hypervisor to pause the guest.
    fn pause(&mut self) -> (r: Result<(), VmiError>)
        ensures
            final(self).vcpu_count() == old(self).vcpu_count(),
            !old(self).supports(Capability::Pause) ==> r == Err::<(), VmiError>(
                VmiError::UnsupportedOperation,
            ),
    {
        Err(VmiError::UnsupportedOperation)
    }

    /// Lets the guest run again.
    fn resume(&mut self) -> (r: Result<(), VmiError>)
        ensures
            final(self).vcpu_count() == old(self).vcpu_count(),
            !old(self).supports(Capability::Resume) ==> r == Err::<(), VmiError>(
                VmiError::UnsupportedOperation,
            ),
    {
        Err(VmiError::UnsupportedOperation)
    }

    /// Switches a trap category on or off for one VCPU.
    fn toggle_intercept(&mut self, vcpu: u16, intercept_type: InterceptType, enabled: bool) -> (r:
        Result<(), VmiError>)
        ensures
            final(self).vcpu_count() == old(self).vcpu_count(),
            !old(self).supports(Capability::ToggleIntercept) ==> r == Err::<(), VmiError>(
                VmiError::UnsupportedOperation,
            ),
    {
        Err(VmiError::UnsupportedOperation)
    }

    /// Waits up to `timeout` milliseconds for the next trap on any VCPU.
    fn listen(&mut self, timeout: u32) -> (r: Result<Option<Event>, VmiError>)
        ensures
            final(self).vcpu_count() == old(self).vcpu_count(),
            !old(self).supports(Capability::Listen) ==> r == Err::<Option<Event>, VmiError>(
                VmiError::UnsupportedOperation,
            ),
    {
        Err(VmiError::UnsupportedOperation)
    }

    /// Disposes of an event that `listen` handed out.
    fn reply_event(&mut self, event: Event, reply_type: EventReplyType) -> (r: Result<
        (),
        VmiError,
    >)
        ensures
            final(self).vcpu_count() == old(self).vcpu_count(),
            !old(self).supports(Capability::ReplyEvent) ==> r == Err::<(), VmiError>(
                VmiError::UnsupportedOperation,
            ),
    {
        Err(VmiError::UnsupportedOperation)
    }

    /// Which backend this is. Never fails.
    fn get_driver_type(&self) -> DriverType;
}

} // verus!
