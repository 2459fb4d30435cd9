//! Pause/resume and pending-event bookkeeping of one backend instance.
//!
//! A guest pause is asynchronous: every VCPU acknowledges on its own once it
//! reaches a safe point. [`PauseState`] counts the acknowledgements that have
//! not been consumed yet, and [`Coordinator`] adds one slot per VCPU for the
//! event that was handed to the caller and has not been replied to.

use crate::api::{Event, EventType, VmiError};
use vstd::prelude::*;

verus! {

/// How far a pause of the guest has got.
#[derive(Debug, Clone, Copy, PartialEq, Eq, Structural)]
pub enum PauseState {
    /// No pause is outstanding.
    Running,
    /// The hypervisor accepted a pause request, and this many VCPUs, at least
    /// one, have not had their acknowledgement consumed.
    PausePending(u32),
    /// The guest is paused and no acknowledgement is outstanding.
    Paused,
}

impl PauseState {
    /// A pending pause waits for at least one acknowledgement.
    pub open spec fn wf(self) -> bool {
        self matches PauseState::PausePending(n) ==> n >= 1
    }

    /// The number of acknowledgements that have not been consumed.
    pub open spec fn outstanding(self) -> nat {
        match self {
            PauseState::PausePending(n) => n as nat,
            _ => 0,
        }
    }

    /// The state once the hypervisor has accepted a pause request that `acks`
    /// VCPUs will acknowledge. Only a running guest is affected.
    pub open spec fn pause_requested(self, acks: u32) -> PauseState {
        match self {
            PauseState::Running => if acks == 0 {
                PauseState::Paused
            } else {
                PauseState::PausePending(acks)
            },
            _ => self,
        }
    }

    /// The state once one acknowledgement has been consumed. The last one
    /// lets the guest run.
    pub open spec fn acknowledged(self) -> PauseState {
        match self {
            PauseState::PausePending(n) => if n <= 1 {
                PauseState::Running
            } else {
                PauseState::PausePending((n - 1) as u32)
            },
            _ => self,
        }
    }

    /// The state once `k` acknowledgements have been consumed, one after the other.
    pub open spec fn acknowledged_times(self, k: nat) -> PauseState
        decreases k,
    {
        if k == 0 {
            self
        } else {
            self.acknowledged().acknowledged_times((k - 1) as nat)
        }
    }

    /// The state once a paused guest has been let go.
    pub open spec fn released(self) -> PauseState {
        match self {
            PauseState::Paused => PauseState::Running,
            _ => self,
        }
    }
}

/// Once a pause request has been accepted the guest no longer counts as
/// running, whatever the number of VCPUs, and a second acceptance changes
/// nothing.
pub proof fn lemma_pause_is_idempotent(state: PauseState, acks: u32)
    ensures
        !(state.pause_requested(acks) is Running),
        state.pause_requested(acks).pause_requested(acks) == state.pause_requested(acks),
{
}

/// Acknowledgements count a pending pause down: while fewer have been
/// consumed than were outstanding the pause is still pending, with the rest
/// outstanding, and with the last of them the guest runs. A guest that runs
/// or is paused has none to consume.
pub proof fn lemma_acknowledgements_count_down(state: PauseState, k: nat)
    requires
        state.wf(),
    ensures
        state.acknowledged_times(k).wf(),
        state.outstanding() > k ==> state.acknowledged_times(k) == PauseState::PausePending(
            (state.outstanding() - k) as u32,
        ),
        state is PausePending && state.outstanding() <= k ==> state.acknowledged_times(k)
            == PauseState::Running,
        !(state is PausePending) ==> state.acknowledged_times(k) == state,
    decreases k,
{
    if k > 0 {
        lemma_acknowledgements_count_down(state.acknowledged(), (k - 1) as nat);
    }
}

/// The pause state of one backend instance and its pending-event slots, one
/// per VCPU.
#[derive(Debug)]
pub struct Coordinator {
    pause: PauseState,
    // VCPU -> what trapped it, while the event is in flight
    pending: Vec<Option<EventType>>,
}

impl Coordinator {
    #[verifier::type_invariant]
    spec fn inv(self) -> bool {
        &&& self.pause.wf()
        &&& self.pending@.len() <= u16::MAX
    }

    /// How far a pause has got.
    pub closed spec fn pause_state(self) -> PauseState {
        self.pause
    }

    /// The slots: for each VCPU the event in flight, if there is one.
    pub closed spec fn pending(self) -> Seq<Option<Event>> {
        Seq::new(
            self.pending@.len(),
            |i: int|
                match self.pending@[i] {
                    Some(kind) => Some(Event { vcpu: i as u16, kind }),
                    None => None,
                },
        )
    }

    /// The number of VCPUs, which is the number of slots.
    pub open spec fn vcpu_count(self) -> nat {
        self.pending().len()
    }

    /// What holds of every coordinator: a pending pause waits for at least one
    /// acknowledgement, there is one slot per VCPU, and an event in flight
    /// sits in the slot of its own VCPU.
    pub open spec fn wf(self) -> bool {
        &&& self.pause_state().wf()
        &&& self.vcpu_count() <= u16::MAX
        &&& forall|i: int|
            0 <= i < self.vcpu_count() ==> (#[trigger] self.pending()[i] matches Some(e)
                ==> e.vcpu == i)
    }

    /// A coordinator for a running guest with `vcpu_count` VCPUs and no event
    /// in flight.
    pub fn new(vcpu_count: u16) -> (c: Coordinator)
        ensures
            c.wf(),
            c.pause_state() == PauseState::Running,
            c.vcpu_count() == vcpu_count,
            forall|i: int| 0 <= i < vcpu_count ==> c.pending()[i] is None,
    {
        let mut pending: Vec<Option<EventType>> = Vec::new();
        let mut i: u16 = 0;
        while i < vcpu_count
            invariant
                i <= vcpu_count,
                pending@.len() == i,
                forall|j: int| 0 <= j < i ==> pending@[j] is None,
            decreases vcpu_count - i,
        {
            pending.push(None);
            i = i + 1;
        }
        Coordinator { pause: PauseState::Running, pending }
    }

    /// The number of VCPUs. It never changes.
    pub fn get_vcpu_count(&self) -> (n: u16)
        ensures
            self.wf(),
            n == self.vcpu_count(),
    {
        proof {
            use_type_invariant(self);
        }
        self.pending.len() as u16
    }

    /// How far a pause has got.
    pub fn get_pause_state(&self) -> (state: PauseState)
        ensures
            self.wf(),
            state == self.pause_state(),
    {
        proof {
            use_type_invariant(self);
        }
        self.pause
    }

    /// The event in flight on `vcpu`, if there is one.
    pub fn pending_event(&self, vcpu: u16) -> (slot: Option<Event>)
        ensures
            vcpu < self.vcpu_count() ==> slot == self.pending()[vcpu as int],
            vcpu >= self.vcpu_count() ==> slot is None,
    {
        if (vcpu as usize) < self.pending.len() {
            match self.pending[vcpu as usize] {
                Some(kind) => Some(Event { vcpu, kind }),
                None => None,
            }
        } else {
            None
        }
    }

    /// Records that the hypervisor accepted a pause request which `acks`
    /// VCPUs will acknowledge.
    pub fn pause_requested(&mut self, acks: u32)
        ensures
            final(self).wf(),
            final(self).pause_state() == old(self).pause_state().pause_requested(acks),
            final(self).pending() == old(self).pending(),
        no_unwind
    {
        proof {
            use_type_invariant(&*self);
        }
        match self.pause {
            PauseState::Running => {
                if acks == 0 {
                    self.pause = PauseState::Paused;
                } else {
                    self.pause = PauseState::PausePending(acks);
                }
            },
            _ => {},
        }
    }

    /// Consumes one pause acknowledgement. With none outstanding the
    /// hypervisor and the bookkeeping disagree.
    pub fn acknowledge(&mut self) -> (r: Result<(), VmiError>)
        ensures
            final(self).wf(),
            final(self).pending() == old(self).pending(),
            old(self).pause_state() is PausePending ==> r is Ok && final(self).pause_state()
                == old(self).pause_state().acknowledged(),
            !(old(self).pause_state() is PausePending) ==> r == Err::<(), VmiError>(
                VmiError::ProtocolDesync,
            ) && final(self).pause_state() == old(self).pause_state(),
        no_unwind
    {
        proof {
            use_type_invariant(&*self);
        }
        match self.pause {
            PauseState::PausePending(n) => {
                if n <= 1 {
                    self.pause = PauseState::Running;
                } else {
                    self.pause = PauseState::PausePending(n - 1);
                }
                Ok(())
            },
            _ => Err(VmiError::ProtocolDesync),
        }
    }

    /// Records that a paused guest with nothing outstanding was let go.
    pub fn released(&mut self)
        ensures
            final(self).wf(),
            final(self).pause_state() == old(self).pause_state().released(),
            final(self).pending() == old(self).pending(),
        no_unwind
    {
        proof {
            use_type_invariant(&*self);
        }
        match self.pause {
            PauseState::Paused => {
                self.pause = PauseState::Running;
            },
            _ => {},
        }
    }

    /// Puts `event` into the slot of its VCPU. An event for a VCPU that does
    /// not exist, or whose slot is taken, is a protocol violation.
    pub fn hold(&mut self, event: Event) -> (r: Result<(), VmiError>)
        ensures
            final(self).wf(),
            final(self).pause_state() == old(self).pause_state(),
            r is Ok <==> event.vcpu < old(self).vcpu_count() && old(self).pending()[event.vcpu as int]
                is None,
            r is Ok ==> final(self).pending() == old(self).pending().update(
                event.vcpu as int,
                Some(event),
            ),
            r is Err ==> r == Err::<(), VmiError>(VmiError::ProtocolDesync) && final(self).pending()
                == old(self).pending(),
        no_unwind
    {
        proof {
            use_type_invariant(&*self);
        }
        let index = event.vcpu as usize;
        if index >= self.pending.len() {
            return Err(VmiError::ProtocolDesync);
        }
        if let Some(_) = self.pending[index] {
            return Err(VmiError::ProtocolDesync);
        }
        self.pending[index] = Some(event.kind);
        Ok(())
    }

    /// Takes the event in flight out of the slot of `vcpu`.
    pub fn release(&mut self, vcpu: u16) -> (r: Result<Event, VmiError>)
        ensures
            final(self).wf(),
            final(self).pause_state() == old(self).pause_state(),
            vcpu >= old(self).vcpu_count() ==> r == Err::<Event, VmiError>(
                VmiError::InvalidArgument,
            ),
            vcpu < old(self).vcpu_count() ==> (match old(self).pending()[vcpu as int] {
                None => r == Err::<Event, VmiError>(VmiError::ProtocolDesync),
                Some(event) => r == Ok::<Event, VmiError>(event),
            }),
            r is Ok ==> final(self).pending() == old(self).pending().update(vcpu as int, None),
            r is Err ==> final(self).pending() == old(self).pending(),
        no_unwind
    {
        proof {
            use_type_invariant(&*self);
        }
        let index = vcpu as usize;
        if index >= self.pending.len() {
            return Err(VmiError::InvalidArgument);
        }
        match self.pending[index] {
            None => Err(VmiError::ProtocolDesync),
            Some(kind) => {
                self.pending[index] = None;
                Ok(Event { vcpu, kind })
            },
        }
    }
}

} // verus!
