//! The VirtualBox backend, over the Fast Debugging Protocol.
//!
//! The protocol pauses and resumes the guest at once, so a pause never waits
//! for acknowledgements, and it has no event channel: trap interception,
//! `listen` and `reply_event` are left out. Registers are not read either.

use crate::api::{Capability, DriverType, VmiError};
use crate::coordinator::PauseState;
use vstd::prelude::*;

verus! {

/// A request to the debugging protocol.
#[derive(Debug, Clone, Copy, PartialEq, Eq, Structural)]
pub enum FdpCommand {
    /// Read `len` bytes of guest physical memory from `paddr` on.
    ReadPhysicalMemory { paddr: u64, len: u32 },
    /// Ask for the size of guest physical memory.
    GetPhysicalMemorySize,
    /// Pause the guest.
    Pause,
    /// Let the guest run.
    Resume,
}

/// What `pause` has to issue in `state`: a pause if the guest runs.
pub open spec fn pause_command(state: PauseState) -> Option<FdpCommand> {
    if state is Running {
        Some(FdpCommand::Pause)
    } else {
        None
    }
}

/// What `resume` has to issue in `state`: a resume if the guest is paused.
pub open spec fn resume_command(state: PauseState) -> Option<FdpCommand> {
    if state is Paused {
        Some(FdpCommand::Resume)
    } else {
        None
    }
}

/// The pause state once the protocol has carried out `cmd`. A pause takes
/// effect at once, with no acknowledgement to wait for.
pub open spec fn pause_after(state: PauseState, cmd: FdpCommand) -> PauseState {
    match cmd {
        FdpCommand::Pause => state.pause_requested(0),
        FdpCommand::Resume => state.released(),
        _ => state,
    }
}

/// `pause` twice in a row issues one pause, and so does `resume` with
/// `resume`: once the first call is through, the second has nothing to issue.
pub proof fn lemma_pause_and_resume_are_idempotent(state: PauseState)
    ensures
        ({
            let after_pause = match pause_command(state) {
                Some(cmd) => pause_after(state, cmd),
                None => state,
            };
            pause_command(after_pause) is None
        }),
        ({
            let after_resume = match resume_command(state) {
                Some(cmd) => pause_after(state, cmd),
                None => state,
            };
            resume_command(after_resume) is None
        }),
{
}

/// The adapter's state for one VirtualBox guest.
#[derive(Debug)]
pub struct VBox {
    domain: String,
    pause: PauseState,
}

impl VBox {
    #[verifier::type_invariant]
    spec fn inv(self) -> bool {
        !(self.pause is PausePending)
    }

    /// The name of the guest domain.
    pub closed spec fn domain(self) -> Seq<char> {
        self.domain@
    }

    /// Whether the guest runs or is paused; a pause is never pending.
    pub closed spec fn pause_state(self) -> PauseState {
        self.pause
    }

    /// The protocol has no query for the number of VCPUs. The adapter
    /// reports one.
    pub open spec fn vcpu_count(self) -> nat {
        1
    }

    /// What holds of every adapter state: no pause is pending.
    pub open spec fn wf(self) -> bool {
        !(self.pause_state() is PausePending)
    }

    /// The adapter state for the guest `domain_name`, from how opening the
    /// protocol's shared memory went. The guest runs.
    pub fn new(domain_name: &str, handshake: Result<(), String>) -> (r: Result<VBox, VmiError>)
        ensures
            handshake matches Err(detail) ==> r == Err::<VBox, VmiError>(
                VmiError::ConnectionError(detail),
            ),
            handshake is Ok ==> r is Ok,
            r matches Ok(vbox) ==> vbox.wf() && vbox.domain() == domain_name@ && vbox.pause_state()
                == PauseState::Running,
    {
        match handshake {
            Err(detail) => Err(VmiError::ConnectionError(detail)),
            Ok(_) => Ok(VBox { domain: domain_name.to_owned(), pause: PauseState::Running }),
        }
    }

    /// The name of the guest domain.
    pub fn domain_name(&self) -> (name: &str)
        ensures
            name@ == self.domain(),
    {
        self.domain.as_str()
    }

    /// Which operations of the capability interface this backend implements.
    pub fn supports(&self, capability: Capability) -> (supported: bool)
        ensures
            supported == (capability is VcpuCount || capability is ReadPhysical || capability
                is MaxPhysicalAddr || capability is Pause || capability is Resume),
    {
        match capability {
            Capability::VcpuCount => true,
            Capability::ReadPhysical => true,
            Capability::MaxPhysicalAddr => true,
            Capability::Pause => true,
            Capability::Resume => true,
            _ => false,
        }
    }

    /// Which backend this is.
    pub fn get_driver_type(&self) -> (driver: DriverType)
        ensures
            driver == DriverType::VirtualBox,
    {
        DriverType::VirtualBox
    }

    /// The number of VCPUs: always one.
    pub fn get_vcpu_count(&self) -> (r: Result<u16, VmiError>)
        ensures
            r == Ok::<u16, VmiError>(self.vcpu_count() as u16),
    {
        Ok(1)
    }

    /// The command that reads `len` bytes of guest physical memory at
    /// `paddr`. An empty read is refused, and so is one whose length the
    /// protocol cannot express in 32 bits.
    pub fn read_physical(&self, paddr: u64, len: usize) -> (r: Result<FdpCommand, VmiError>)
        ensures
            len == 0 || len > u32::MAX ==> r == Err::<FdpCommand, VmiError>(
                VmiError::InvalidArgument,
            ),
            0 < len <= u32::MAX ==> r == Ok::<FdpCommand, VmiError>(
                FdpCommand::ReadPhysicalMemory { paddr, len: len as u32 },
            ),
    {
        if len == 0 || len > u32::MAX as usize {
            Err(VmiError::InvalidArgument)
        } else {
            Ok(FdpCommand::ReadPhysicalMemory { paddr, len: len as u32 })
        }
    }

    /// The command whose answer is the end of guest physical memory.
    pub fn get_max_physical_addr(&self) -> (cmd: FdpCommand)
        ensures
            cmd == FdpCommand::GetPhysicalMemorySize,
    {
        FdpCommand::GetPhysicalMemorySize
    }

    /// The command that `pause` has to issue: a pause if the guest runs,
    /// none if it is paused already. The state follows once the command is
    /// [`VBox::completed`].
    pub fn pause(&self) -> (cmd: Option<FdpCommand>)
        ensures
            cmd == pause_command(self.pause_state()),
    {
        match self.pause {
            PauseState::Running => Some(FdpCommand::Pause),
            _ => None,
        }
    }

    /// The command that `resume` has to issue: a resume if the guest is
    /// paused, none if it runs.
    pub fn resume(&self) -> (cmd: Option<FdpCommand>)
        ensures
            cmd == resume_command(self.pause_state()),
    {
        match self.pause {
            PauseState::Paused => Some(FdpCommand::Resume),
            _ => None,
        }
    }

    /// Takes in how the protocol fared with `cmd`. If it failed, the state
    /// stays as it was and the failure is passed on with the protocol's own
    /// words. If it was carried out, a pause or a resume is noted.
    pub fn completed(&mut self, cmd: &FdpCommand, outcome: Result<(), String>) -> (r: Result<
        (),
        VmiError,
    >)
        ensures
            final(self).wf(),
            final(self).domain() == old(self).domain(),
            final(self).vcpu_count() == old(self).vcpu_count(),
            outcome matches Err(detail) ==> r == Err::<(), VmiError>(
                VmiError::BackendOperationFailed(detail),
            ),
            outcome is Err ==> final(self).pause_state() == old(self).pause_state(),
            outcome is Ok ==> r is Ok && final(self).pause_state() == pause_after(
                old(self).pause_state(),
                *cmd,
            ),
    {
        proof {
            use_type_invariant(&*self);
        }
        match outcome {
            Err(detail) => {
                return Err(VmiError::BackendOperationFailed(detail));
            },
            Ok(_) => {},
        }
        match *cmd {
            FdpCommand::Pause => {
                match self.pause {
                    PauseState::Running => {
                        self.pause = PauseState::Paused;
                    },
                    _ => {},
                }
            },
            FdpCommand::Resume => {
                match self.pause {
                    PauseState::Paused => {
                        self.pause = PauseState::Running;
                    },
                    _ => {},
                }
            },
            _ => {},
        }
        Ok(())
    }
}

} // verus!
