//! The KVM backend.
//!
//! [`Kvm`] holds what the adapter knows of one guest: how far a pause has
//! got, which event each VCPU waits on, and which control registers are
//! trapped. Every operation of the capability interface comes in two halves.
//! The first checks the arguments and names the [`KvmCommand`] for the
//! introspection channel; the second takes in what the channel answered:
//! [`Kvm::completed`] for a command without an answer of its own,
//! [`Kvm::drain`] for an event popped while resuming, [`Kvm::deliver`] for
//! one popped while listening, and
//! [`registers_from_native`](convert::registers_from_native) for a register
//! file.

pub mod convert;
pub mod laws;
pub mod native;

use crate::api::{Capability, DriverType, Event, EventReplyType, InterceptType, VmiError};
use crate::coordinator::{Coordinator, PauseState};
use crate::driver::kvm::convert::{
    cr_to_native, event_kind_from_native, native_cr, native_reply, neutral_kind, reply_to_native,
};
use crate::driver::kvm::native::{KvmCommand, KvmCr, KvmEvent, KvmEventKind, KvmEventReply};
use vstd::prelude::*;

verus! {

/// The socket on which the introspection channel is reached.
pub const SOCKET_PATH: &'static str = "/tmp/introspector";

/// How long one wait for a pause acknowledgement lasts, in milliseconds.
pub const DRAIN_TIMEOUT_MS: i32 = 1000;

/// KVM has no query for the end of guest physical memory. The adapter
/// reports 512 MiB.
pub const MAX_PHYSICAL_ADDR: u64 = 1024 * 1024 * 512;

/// The control registers of one VCPU whose writes are trapped.
#[derive(Debug, Clone, Copy, PartialEq, Eq, Default, Structural)]
pub struct CrTraps {
    pub cr0: bool,
    pub cr3: bool,
    pub cr4: bool,
}

impl CrTraps {
    /// No register is trapped.
    pub open spec fn none() -> CrTraps {
        CrTraps { cr0: false, cr3: false, cr4: false }
    }

    /// Whether writes to `reg` are trapped.
    pub open spec fn traps(self, reg: KvmCr) -> bool {
        match reg {
            KvmCr::Cr0 => self.cr0,
            KvmCr::Cr3 => self.cr3,
            KvmCr::Cr4 => self.cr4,
        }
    }

    /// The traps with the one on `reg` switched to `enabled`.
    pub open spec fn with(self, reg: KvmCr, enabled: bool) -> CrTraps {
        match reg {
            KvmCr::Cr0 => CrTraps { cr0: enabled, ..self },
            KvmCr::Cr3 => CrTraps { cr3: enabled, ..self },
            KvmCr::Cr4 => CrTraps { cr4: enabled, ..self },
        }
    }

    /// Whether writes to `reg` are trapped.
    pub fn get(&self, reg: KvmCr) -> (trapped: bool)
        ensures
            trapped == self.traps(reg),
    {
        match reg {
            KvmCr::Cr0 => self.cr0,
            KvmCr::Cr3 => self.cr3,
            KvmCr::Cr4 => self.cr4,
        }
    }

    /// The traps with the one on `reg` switched to `enabled`.
    pub fn set(self, reg: KvmCr, enabled: bool) -> (traps: CrTraps)
        ensures
            traps == self.with(reg, enabled),
    {
        match reg {
            KvmCr::Cr0 => CrTraps { cr0: enabled, cr3: self.cr3, cr4: self.cr4 },
            KvmCr::Cr3 => CrTraps { cr0: self.cr0, cr3: enabled, cr4: self.cr4 },
            KvmCr::Cr4 => CrTraps { cr0: self.cr0, cr3: self.cr3, cr4: enabled },
        }
    }
}

/// The trap state once the channel has carried out `cmd`. Only a command
/// that traps or releases a control register of an existing VCPU changes it.
pub open spec fn traps_after(traps: Seq<CrTraps>, cmd: KvmCommand) -> Seq<CrTraps> {
    match cmd {
        KvmCommand::ControlCr { vcpu, reg, enabled } => if vcpu < traps.len() {
            traps.update(vcpu as int, traps[vcpu as int].with(reg, enabled))
        } else {
            traps
        },
        _ => traps,
    }
}

/// The pause state of a guest with `vcpus` VCPUs once the channel has
/// carried out `cmd`. Only a pause request changes it: every VCPU then owes
/// an acknowledgement.
pub open spec fn pause_after(state: PauseState, cmd: KvmCommand, vcpus: nat) -> PauseState {
    match cmd {
        KvmCommand::Pause => state.pause_requested(vcpus as u32),
        _ => state,
    }
}

/// What `pause` has to issue in `state`: a pause request if the guest runs,
/// nothing if a pause is pending or the guest is paused.
pub open spec fn pause_command(state: PauseState) -> Option<KvmCommand> {
    if state is Running {
        Some(KvmCommand::Pause)
    } else {
        None
    }
}

/// What `resume` has to issue next in `state`: a wait for the next
/// acknowledgement while some are outstanding, nothing once none is.
pub open spec fn resume_command(state: PauseState) -> Option<KvmCommand> {
    if state is PausePending {
        Some(KvmCommand::WaitEvent { ms: DRAIN_TIMEOUT_MS })
    } else {
        None
    }
}

/// What a drain returns in `state` for what was popped from the channel. A
/// pause acknowledgement is answered with "continue", a timeout with
/// nothing. Any other event, or whatever comes while no acknowledgement is
/// outstanding, is a protocol violation.
pub open spec fn drained(state: PauseState, native: Option<KvmEvent>) -> Result<
    Option<KvmCommand>,
    VmiError,
> {
    if !(state is PausePending) {
        Err(VmiError::ProtocolDesync)
    } else {
        match native {
            None => Ok(None),
            Some(event) => if event.kind is PauseVcpu {
                Ok(Some(KvmCommand::Reply { vcpu: event.vcpu, reply: KvmEventReply::Continue }))
            } else {
                Err(VmiError::ProtocolDesync)
            },
        }
    }
}

/// The command that switches a trap of `vcpu` on or off, for a guest with
/// `vcpus` VCPUs. The VCPU must exist, and KVM must be able to trap the
/// register.
pub open spec fn toggle_command(
    vcpus: nat,
    vcpu: u16,
    intercept_type: InterceptType,
    enabled: bool,
) -> Result<KvmCommand, VmiError> {
    if vcpu >= vcpus {
        Err(VmiError::InvalidArgument)
    } else {
        match intercept_type {
            InterceptType::Cr(cr) => match native_cr(cr) {
                None => Err(VmiError::UnsupportedOperation),
                Some(reg) => Ok(KvmCommand::ControlCr { vcpu, reg, enabled }),
            },
        }
    }
}

/// What `listen` returns for what was popped from the channel, given the
/// slots before. No event is made up: without a native event there is none.
/// A control-register trap is handed out under the VCPU it came from, unless
/// that VCPU does not exist or already has an event in flight.
pub open spec fn delivery(pending: Seq<Option<Event>>, native: Option<KvmEvent>) -> Result<
    Option<Event>,
    VmiError,
> {
    match native {
        None => Ok(None),
        Some(event) => match neutral_kind(event.kind) {
            Err(error) => Err(error),
            Ok(kind) => if event.vcpu < pending.len() && pending[event.vcpu as int] is None {
                Ok(Some(Event { vcpu: event.vcpu, kind }))
            } else {
                Err(VmiError::ProtocolDesync)
            },
        },
    }
}

/// The command that undoes the trap on `reg` of `vcpu`, if there is one.
pub open spec fn release_trap(vcpu: u16, traps: CrTraps, reg: KvmCr) -> Seq<KvmCommand> {
    if traps.traps(reg) {
        seq![KvmCommand::ControlCr { vcpu, reg, enabled: false }]
    } else {
        Seq::empty()
    }
}

/// The commands that leave `vcpu` without interception: one for each
/// control register still trapped, then the one that switches its
/// control-register events off.
pub open spec fn vcpu_cleanup(vcpu: u16, traps: CrTraps) -> Seq<KvmCommand> {
    release_trap(vcpu, traps, KvmCr::Cr0) + release_trap(vcpu, traps, KvmCr::Cr3) + release_trap(
        vcpu,
        traps,
        KvmCr::Cr4,
    ) + seq![KvmCommand::ControlCrEvents { vcpu, enabled: false }]
}

/// The commands that leave the guest without interception, VCPU by VCPU.
pub open spec fn cleanup_plan(traps: Seq<CrTraps>) -> Seq<KvmCommand>
    decreases traps.len(),
{
    if traps.len() == 0 {
        Seq::empty()
    } else {
        cleanup_plan(traps.drop_last()) + vcpu_cleanup((traps.len() - 1) as u16, traps.last())
    }
}

/// The commands that switch the control-register events of every VCPU on.
pub open spec fn startup_plan(vcpus: nat) -> Seq<KvmCommand> {
    Seq::new(vcpus, |i: int| KvmCommand::ControlCrEvents { vcpu: i as u16, enabled: true })
}

/// The adapter's state for one KVM guest.
#[derive(Debug)]
pub struct Kvm {
    domain: String,
    coordinator: Coordinator,
    // VCPU -> the control registers whose writes are trapped
    traps: Vec<CrTraps>,
}

impl Kvm {
    #[verifier::type_invariant]
    spec fn inv(self) -> bool {
        &&& self.coordinator.wf()
        &&& self.traps@.len() == self.coordinator.vcpu_count()
    }

    /// The name of the guest domain.
    pub closed spec fn domain(self) -> Seq<char> {
        self.domain@
    }

    /// How far a pause has got.
    pub closed spec fn pause_state(self) -> PauseState {
        self.coordinator.pause_state()
    }

    /// For each VCPU the event in flight, if there is one.
    pub closed spec fn pending(self) -> Seq<Option<Event>> {
        self.coordinator.pending()
    }

    /// For each VCPU the control registers that are trapped.
    pub closed spec fn traps(self) -> Seq<CrTraps> {
        self.traps@
    }

    /// The number of VCPUs of the guest.
    pub open spec fn vcpu_count(self) -> nat {
        self.pending().len()
    }

    /// What holds of every adapter state: a pending pause waits for at least
    /// one acknowledgement, every VCPU has its slot and its traps, and an
    /// event in flight sits in the slot of its own VCPU.
    pub open spec fn wf(self) -> bool {
        &&& self.pause_state().wf()
        &&& self.vcpu_count() <= u16::MAX
        &&& self.traps().len() == self.vcpu_count()
        &&& forall|i: int|
            0 <= i < self.vcpu_count() ==> (#[trigger] self.pending()[i] matches Some(e)
                ==> e.vcpu == i)
    }

    /// The adapter state for the guest `domain_name`, from what the
    /// handshake on the introspection channel gave: the number of VCPUs, or
    /// the reason it failed. The guest runs, no event is in flight and no
    /// control register is trapped.
    pub fn new(domain_name: &str, handshake: Result<u32, String>) -> (r: Result<Kvm, VmiError>)
        ensures
            handshake matches Err(detail) ==> r == Err::<Kvm, VmiError>(
                VmiError::ConnectionError(detail),
            ),
            handshake matches Ok(n) && n > u16::MAX ==> r == Err::<Kvm, VmiError>(
                VmiError::InvalidArgument,
            ),
            handshake matches Ok(n) && n <= u16::MAX ==> r is Ok,
            handshake matches Ok(n) ==> (r matches Ok(kvm) ==> kvm.vcpu_count() == n),
            r matches Ok(kvm) ==> kvm.wf() && kvm.domain() == domain_name@ && kvm.pause_state()
                == PauseState::Running,
            r matches Ok(kvm) ==> forall|i: int|
                0 <= i < kvm.vcpu_count() ==> kvm.pending()[i] is None,
            r matches Ok(kvm) ==> forall|i: int|
                0 <= i < kvm.vcpu_count() ==> kvm.traps()[i] == CrTraps::none(),
    {
        let reported = match handshake {
            Err(detail) => {
                return Err(VmiError::ConnectionError(detail));
            },
            Ok(n) => n,
        };
        if reported > u16::MAX as u32 {
            return Err(VmiError::InvalidArgument);
        }
        let vcpu_count = reported as u16;
        let coordinator = Coordinator::new(vcpu_count);
        let mut traps: Vec<CrTraps> = Vec::new();
        let mut i: u16 = 0;
        while i < vcpu_count
            invariant
                i <= vcpu_count,
                traps@.len() == i,
                forall|j: int| 0 <= j < i ==> traps@[j] == CrTraps::none(),
            decreases vcpu_count - i,
        {
            traps.push(CrTraps { cr0: false, cr3: false, cr4: false });
            i = i + 1;
        }
        Ok(Kvm { domain: domain_name.to_owned(), coordinator, traps })
    }

    /// The commands to issue once after the handshake: control-register
    /// events are switched on for every VCPU. A trap is taken only for the
    /// registers that `toggle_intercept` selects.
    pub fn startup(&self) -> (plan: Vec<KvmCommand>)
        ensures
            plan@ == startup_plan(self.vcpu_count()),
    {
        let vcpu_count = self.coordinator.get_vcpu_count();
        let mut plan: Vec<KvmCommand> = Vec::new();
        let mut vcpu: u16 = 0;
        while vcpu < vcpu_count
            invariant
                vcpu <= vcpu_count,
                plan@ == startup_plan(vcpu as nat),
            decreases vcpu_count - vcpu,
        {
            plan.push(KvmCommand::ControlCrEvents { vcpu, enabled: true });
            vcpu = vcpu + 1;
        }
        plan
    }

    /// The commands to issue when the adapter is given up: whatever is still
    /// trapped is released, and control-register events are switched off
    /// for every VCPU.
    pub fn shutdown(&self) -> (plan: Vec<KvmCommand>)
        ensures
            plan@ == cleanup_plan(self.traps()),
    {
        proof {
            use_type_invariant(self);
        }
        let mut plan: Vec<KvmCommand> = Vec::new();
        let mut i: usize = 0;
        while i < self.traps.len()
            invariant
                i <= self.traps@.len() <= u16::MAX,
                plan@ == cleanup_plan(self.traps@.take(i as int)),
            decreases self.traps@.len() - i,
        {
            let vcpu = i as u16;
            let traps = self.traps[i];
            if traps.cr0 {
                plan.push(KvmCommand::ControlCr { vcpu, reg: KvmCr::Cr0, enabled: false });
            }
            if traps.cr3 {
                plan.push(KvmCommand::ControlCr { vcpu, reg: KvmCr::Cr3, enabled: false });
            }
            if traps.cr4 {
                plan.push(KvmCommand::ControlCr { vcpu, reg: KvmCr::Cr4, enabled: false });
            }
            plan.push(KvmCommand::ControlCrEvents { vcpu, enabled: false });
            assert(self.traps@.take(i + 1).drop_last() =~= self.traps@.take(i as int));
            i = i + 1;
        }
        assert(self.traps@.take(i as int) =~= self.traps@);
        plan
    }

    /// The number of VCPUs, as the handshake gave it. No operation changes it.
    pub fn get_vcpu_count(&self) -> (r: Result<u16, VmiError>)
        ensures
            r == Ok::<u16, VmiError>(self.vcpu_count() as u16),
            self.vcpu_count() <= u16::MAX,
    {
        Ok(self.coordinator.get_vcpu_count())
    }

    /// The end of guest physical memory, a fixed estimate.
    pub fn get_max_physical_addr(&self) -> (r: Result<u64, VmiError>)
        ensures
            r == Ok::<u64, VmiError>(MAX_PHYSICAL_ADDR),
    {
        Ok(MAX_PHYSICAL_ADDR)
    }

    /// The command that reads `len` bytes of guest physical memory at
    /// `paddr`. An empty read is refused.
    pub fn read_physical(&self, paddr: u64, len: usize) -> (r: Result<KvmCommand, VmiError>)
        ensures
            len == 0 ==> r == Err::<KvmCommand, VmiError>(VmiError::InvalidArgument),
            len != 0 ==> r == Ok::<KvmCommand, VmiError>(
                KvmCommand::ReadPhysical { gpa: paddr, len },
            ),
    {
        if len == 0 {
            Err(VmiError::InvalidArgument)
        } else {
            Ok(KvmCommand::ReadPhysical { gpa: paddr, len })
        }
    }

    /// The command that reads the registers of `vcpu`, which must exist. The
    /// snapshot for what it gives is
    /// [`registers_from_native`](convert::registers_from_native).
    pub fn read_registers(&self, vcpu: u16) -> (r: Result<KvmCommand, VmiError>)
        ensures
            vcpu >= self.vcpu_count() ==> r == Err::<KvmCommand, VmiError>(
                VmiError::InvalidArgument,
            ),
            vcpu < self.vcpu_count() ==> r == Ok::<KvmCommand, VmiError>(
                KvmCommand::GetRegisters { vcpu },
            ),
    {
        if vcpu >= self.coordinator.get_vcpu_count() {
            Err(VmiError::InvalidArgument)
        } else {
            Ok(KvmCommand::GetRegisters { vcpu })
        }
    }

    /// The command that `pause` has to issue: a pause request if the guest
    /// runs, none if a pause is pending or the guest is paused. The state
    /// follows once the request is [`Kvm::completed`].
    pub fn pause(&self) -> (cmd: Option<KvmCommand>)
        ensures
            cmd == pause_command(self.pause_state()),
    {
        match self.coordinator.get_pause_state() {
            PauseState::Running => Some(KvmCommand::Pause),
            _ => None,
        }
    }

    /// The command that `resume` has to issue next. While acknowledgements
    /// are outstanding it is a wait for the next event, which goes to
    /// [`Kvm::drain`]. With none outstanding nothing is left to do, and the
    /// guest counts as running.
    pub fn resume(&mut self) -> (cmd: Option<KvmCommand>)
        ensures
            final(self).wf(),
            final(self).domain() == old(self).domain(),
            final(self).vcpu_count() == old(self).vcpu_count(),
            final(self).pending() == old(self).pending(),
            final(self).traps() == old(self).traps(),
            cmd == resume_command(old(self).pause_state()),
            final(self).pause_state() == old(self).pause_state().released(),
    {
        proof {
            use_type_invariant(&*self);
        }
        match self.coordinator.get_pause_state() {
            PauseState::PausePending(_) => Some(KvmCommand::WaitEvent { ms: DRAIN_TIMEOUT_MS }),
            _ => {
                self.coordinator.released();
                None
            },
        }
    }

    /// Takes in what a wait issued by [`Kvm::resume`] gave. A pause
    /// acknowledgement is consumed and answered with "continue"; it never
    /// reaches the caller. A timeout changes nothing. Any other event, or an
    /// event while nothing is being drained, is a protocol violation.
    pub fn drain(&mut self, native: Option<KvmEvent>) -> (r: Result<Option<KvmCommand>, VmiError>)
        ensures
            final(self).wf(),
            final(self).domain() == old(self).domain(),
            final(self).vcpu_count() == old(self).vcpu_count(),
            final(self).pending() == old(self).pending(),
            final(self).traps() == old(self).traps(),
            r == drained(old(self).pause_state(), native),
            r matches Ok(Some(_)) ==> final(self).pause_state()
                == old(self).pause_state().acknowledged(),
            !(r matches Ok(Some(_))) ==> final(self).pause_state() == old(self).pause_state(),
    {
        proof {
            use_type_invariant(&*self);
        }
        match self.coordinator.get_pause_state() {
            PauseState::PausePending(_) => {},
            _ => {
                return Err(VmiError::ProtocolDesync);
            },
        }
        match native {
            None => Ok(None),
            Some(event) => match event.kind {
                KvmEventKind::PauseVcpu => {
                    match self.coordinator.acknowledge() {
                        Ok(()) => Ok(
                            Some(
                                KvmCommand::Reply {
                                    vcpu: event.vcpu,
                                    reply: KvmEventReply::Continue,
                                },
                            ),
                        ),
                        Err(error) => Err(error),
                    }
                },
                _ => Err(VmiError::ProtocolDesync),
            },
        }
    }

    /// The command that switches the trap `intercept_type` of `vcpu` on or
    /// off. The VCPU must exist, and KVM must be able to trap the register.
    /// The state follows once the command is [`Kvm::completed`].
    pub fn toggle_intercept(&self, vcpu: u16, intercept_type: InterceptType, enabled: bool) -> (r:
        Result<KvmCommand, VmiError>)
        ensures
            r == toggle_command(self.vcpu_count(), vcpu, intercept_type, enabled),
    {
        if vcpu >= self.coordinator.get_vcpu_count() {
            return Err(VmiError::InvalidArgument);
        }
        match intercept_type {
            InterceptType::Cr(cr) => match cr_to_native(cr) {
                None => Err(VmiError::UnsupportedOperation),
                Some(reg) => Ok(KvmCommand::ControlCr { vcpu, reg, enabled }),
            },
        }
    }

    /// Takes in how the channel fared with `cmd`. If it failed, the state
    /// stays as it was and the failure is passed on with the channel's own
    /// words. If it was carried out, a pause request leaves every VCPU owing
    /// an acknowledgement, a trap that was switched is noted for its VCPU,
    /// and any other command leaves the state as it was.
    pub fn completed(&mut self, cmd: &KvmCommand, outcome: Result<(), String>) -> (r: Result<
        (),
        VmiError,
    >)
        ensures
            final(self).wf(),
            final(self).domain() == old(self).domain(),
            final(self).vcpu_count() == old(self).vcpu_count(),
            final(self).pending() == old(self).pending(),
            outcome matches Err(detail) ==> r == Err::<(), VmiError>(
                VmiError::BackendOperationFailed(detail),
            ),
            outcome is Err ==> final(self).traps() == old(self).traps(),
            outcome is Err ==> final(self).pause_state() == old(self).pause_state(),
            outcome is Ok ==> r is Ok && final(self).traps() == traps_after(
                old(self).traps(),
                *cmd,
            ),
            outcome is Ok ==> final(self).pause_state() == pause_after(
                old(self).pause_state(),
                *cmd,
                old(self).vcpu_count(),
            ),
    {
        proof {
            use_type_invariant(&*self);
        }
        match outcome {
            Err(detail) => {
                return Err(VmiError::BackendOperationFailed(detail));
            },
            Ok(_) => {},
        }
        match *cmd {
            KvmCommand::ControlCr { vcpu, reg, enabled } => {
                let index = vcpu as usize;
                if index < self.traps.len() {
                    let traps = self.traps[index];
                    self.traps[index] = traps.set(reg, enabled);
                }
            },
            KvmCommand::Pause => {
                let vcpu_count = self.coordinator.get_vcpu_count();
                self.coordinator.pause_requested(vcpu_count as u32);
            },
            _ => {},
        }
        Ok(())
    }

    /// The command that waits up to `timeout` milliseconds for the next
    /// event. The channel counts in a signed 32-bit number; a timeout that
    /// does not fit is refused. What the wait gives goes to [`Kvm::deliver`].
    pub fn listen(&self, timeout: u32) -> (r: Result<KvmCommand, VmiError>)
        ensures
            timeout > i32::MAX ==> r == Err::<KvmCommand, VmiError>(VmiError::InvalidArgument),
            timeout <= i32::MAX ==> r == Ok::<KvmCommand, VmiError>(
                KvmCommand::WaitEvent { ms: timeout as i32 },
            ),
    {
        if timeout > i32::MAX as u32 {
            Err(VmiError::InvalidArgument)
        } else {
            Ok(KvmCommand::WaitEvent { ms: timeout as i32 })
        }
    }

    /// Takes in what a wait issued by [`Kvm::listen`] gave, and returns what
    /// `listen` hands to the caller. An event that is handed out is in
    /// flight from then on: it occupies the slot of its VCPU until
    /// [`Kvm::reply_event`] takes it out.
    pub fn deliver(&mut self, native: Option<KvmEvent>) -> (r: Result<Option<Event>, VmiError>)
        ensures
            final(self).wf(),
            final(self).domain() == old(self).domain(),
            final(self).vcpu_count() == old(self).vcpu_count(),
            final(self).pause_state() == old(self).pause_state(),
            final(self).traps() == old(self).traps(),
            r == delivery(old(self).pending(), native),
            r matches Ok(Some(event)) ==> final(self).pending() == old(self).pending().update(
                event.vcpu as int,
                Some(event),
            ),
            !(r matches Ok(Some(_))) ==> final(self).pending() == old(self).pending(),
    {
        proof {
            use_type_invariant(&*self);
        }
        let native_event = match native {
            None => {
                return Ok(None);
            },
            Some(event) => event,
        };
        let kind = match event_kind_from_native(native_event.kind) {
            Err(error) => {
                return Err(error);
            },
            Ok(kind) => kind,
        };
        let event = Event { vcpu: native_event.vcpu, kind };
        match self.coordinator.hold(event) {
            Ok(()) => Ok(Some(event)),
            Err(error) => Err(error),
        }
    }

    /// The command that disposes of `event`: the reply to the event in
    /// flight on its VCPU, whose slot is empty from then on. Without an
    /// event in flight there the bookkeeping is off.
    pub fn reply_event(&mut self, event: Event, reply_type: EventReplyType) -> (r: Result<
        KvmCommand,
        VmiError,
    >)
        ensures
            final(self).wf(),
            final(self).domain() == old(self).domain(),
            final(self).vcpu_count() == old(self).vcpu_count(),
            final(self).pause_state() == old(self).pause_state(),
            final(self).traps() == old(self).traps(),
            event.vcpu >= old(self).vcpu_count() ==> r == Err::<KvmCommand, VmiError>(
                VmiError::InvalidArgument,
            ),
            event.vcpu < old(self).vcpu_count() && old(self).pending()[event.vcpu as int] is None
                ==> r == Err::<KvmCommand, VmiError>(VmiError::ProtocolDesync),
            event.vcpu < old(self).vcpu_count() && old(self).pending()[event.vcpu as int] is Some
                ==> r == Ok::<KvmCommand, VmiError>(
                KvmCommand::Reply { vcpu: event.vcpu, reply: native_reply(reply_type) },
            ),
            r is Ok ==> final(self).pending() == old(self).pending().update(
                event.vcpu as int,
                None,
            ),
            r is Err ==> final(self).pending() == old(self).pending(),
    {
        proof {
            use_type_invariant(&*self);
        }
        let reply = reply_to_native(reply_type);
        match self.coordinator.release(event.vcpu) {
            Ok(_) => Ok(KvmCommand::Reply { vcpu: event.vcpu, reply }),
            Err(error) => Err(error),
        }
    }

    /// The name of the guest domain.
    pub fn domain_name(&self) -> (name: &str)
        ensures
            name@ == self.domain(),
    {
        self.domain.as_str()
    }

    /// The event in flight on `vcpu`, if there is one.
    pub fn pending_event(&self, vcpu: u16) -> (slot: Option<Event>)
        ensures
            vcpu < self.vcpu_count() ==> slot == self.pending()[vcpu as int],
            vcpu >= self.vcpu_count() ==> slot is None,
    {
        self.coordinator.pending_event(vcpu)
    }

    /// Whether the trap `intercept_type` of `vcpu` is switched on.
    pub fn intercepted(&self, vcpu: u16, intercept_type: InterceptType) -> (on: bool)
        ensures
            on == (vcpu < self.vcpu_count() && match intercept_type {
                InterceptType::Cr(cr) => match native_cr(cr) {
                    Some(reg) => self.traps()[vcpu as int].traps(reg),
                    None => false,
                },
            }),
    {
        proof {
            use_type_invariant(self);
        }
        let index = vcpu as usize;
        if index >= self.traps.len() {
            return false;
        }
        match intercept_type {
            InterceptType::Cr(cr) => match cr_to_native(cr) {
                Some(reg) => self.traps[index].get(reg),
                None => false,
            },
        }
    }

    /// Which operations of the capability interface this backend implements:
    /// all but writing registers.
    pub fn supports(&self, capability: Capability) -> (supported: bool)
        ensures
            supported == !(capability is WriteRegisters),
    {
        match capability {
            Capability::WriteRegisters => false,
            _ => true,
        }
    }

    /// Which backend this is.
    pub fn get_driver_type(&self) -> (driver: DriverType)
        ensures
            driver == DriverType::KVM,
    {
        DriverType::KVM
    }
}

} // verus!
