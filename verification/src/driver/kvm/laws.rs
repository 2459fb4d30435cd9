//! What holds of the KVM adapter over several operations.

use crate::api::{Event, VmiError};
use crate::coordinator::{PauseState, lemma_acknowledgements_count_down};
use crate::driver::kvm::native::{KvmCommand, KvmCr, KvmEvent, KvmEventKind};
use crate::driver::kvm::{
    CrTraps, DRAIN_TIMEOUT_MS, cleanup_plan, delivery, pause_after, pause_command, release_trap,
    resume_command, traps_after, vcpu_cleanup,
};
use vstd::prelude::*;

verus! {

/// `pause` twice in a row issues one pause request. In whatever state the
/// first call finds the guest, once it is through (its request, if it had
/// one, carried out) the second has nothing to issue. On a running guest the
/// first issues the request.
pub proof fn lemma_pause_twice_issues_one_request(state: PauseState, vcpus: nat)
    ensures
        pause_command(PauseState::Running) == Some(KvmCommand::Pause),
        ({
            let after_first = match pause_command(state) {
                Some(cmd) => pause_after(state, cmd, vcpus),
                None => state,
            };
            pause_command(after_first) is None
        }),
{
}

/// After `pause` on a running guest with `vcpus` VCPUs, `resume` consumes
/// exactly `vcpus` acknowledgements: while fewer have been drained it asks
/// for the next wait, and the rest is outstanding; once all have been it has
/// nothing left to issue and the guest runs.
pub proof fn lemma_resume_drains_every_vcpu(vcpus: u16, k: nat)
    requires
        k <= vcpus,
    ensures
        ({
            let paused = pause_after(PauseState::Running, KvmCommand::Pause, vcpus as nat);
            let state = paused.acknowledged_times(k);
            &&& k < vcpus ==> resume_command(state) == Some(
                KvmCommand::WaitEvent { ms: DRAIN_TIMEOUT_MS },
            ) && state.outstanding() == vcpus - k
            &&& k == vcpus ==> resume_command(state) is None && state.released()
                == PauseState::Running
        }),
{
    let paused = pause_after(PauseState::Running, KvmCommand::Pause, vcpus as nat);
    lemma_acknowledgements_count_down(paused, k);
}

/// A pause acknowledgement is never handed to the caller of `listen`,
/// whatever the slots hold.
pub proof fn lemma_acknowledgement_is_never_delivered(pending: Seq<Option<Event>>, vcpu: u16)
    ensures
        delivery(pending, Some(KvmEvent { vcpu, kind: KvmEventKind::PauseVcpu })) == Err::<
            Option<Event>,
            VmiError,
        >(VmiError::ProtocolDesync),
{
}

/// An event that `listen` hands out comes from the VCPU it names and
/// occupies that VCPU's slot, which was free; taking it out again for the
/// reply leaves the slots as they were before `listen`.
pub proof fn lemma_reply_frees_the_slot(pending: Seq<Option<Event>>, native: KvmEvent, event: Event)
    requires
        delivery(pending, Some(native)) == Ok::<Option<Event>, VmiError>(Some(event)),
    ensures
        event.vcpu == native.vcpu,
        event.vcpu < pending.len(),
        pending[event.vcpu as int] is None,
        pending.update(event.vcpu as int, Some(event))[event.vcpu as int] == Some(event),
        pending.update(event.vcpu as int, Some(event)).update(event.vcpu as int, None) == pending,
{
}

/// Trapping a control register that was not trapped and then releasing it
/// leaves the trap state as if neither had happened.
pub proof fn lemma_toggle_round_trip(traps: Seq<CrTraps>, vcpu: u16, reg: KvmCr)
    requires
        vcpu < traps.len(),
        !traps[vcpu as int].traps(reg),
    ensures
        traps_after(
            traps_after(traps, KvmCommand::ControlCr { vcpu, reg, enabled: true }),
            KvmCommand::ControlCr { vcpu, reg, enabled: false },
        ) == traps,
{
}

/// The trap state once the channel has carried out every command of
/// `plan`, in order.
pub open spec fn traps_after_all(traps: Seq<CrTraps>, plan: Seq<KvmCommand>) -> Seq<CrTraps>
    decreases plan.len(),
{
    if plan.len() == 0 {
        traps
    } else {
        traps_after(traps_after_all(traps, plan.drop_last()), plan.last())
    }
}

/// The trap state with the traps of the first `cleared` VCPUs released.
pub open spec fn traps_cleared(traps: Seq<CrTraps>, cleared: int) -> Seq<CrTraps> {
    Seq::new(
        traps.len(),
        |i: int|
            if i < cleared {
                CrTraps::none()
            } else {
                traps[i]
            },
    )
}

/// Carrying out one plan after another is carrying out both in a row.
proof fn lemma_traps_after_both(traps: Seq<CrTraps>, first: Seq<KvmCommand>, second: Seq<KvmCommand>)
    ensures
        traps_after_all(traps, first + second) == traps_after_all(
            traps_after_all(traps, first),
            second,
        ),
    decreases second.len(),
{
    if second.len() > 0 {
        assert((first + second).drop_last() =~= first + second.drop_last());
        lemma_traps_after_both(traps, first, second.drop_last());
    }
}

/// Carrying out a plan of one command.
proof fn lemma_traps_after_one(traps: Seq<CrTraps>, cmd: KvmCommand)
    ensures
        traps_after_all(traps, seq![cmd]) == traps_after(traps, cmd),
{
    let plan = seq![cmd];
    assert(traps_after_all(traps, plan.drop_last()) == traps);
}

/// Whether or not `reg` was trapped on `vcpu`, it is not once the release
/// worked out from the trap state has been carried out.
proof fn lemma_trap_released(traps: Seq<CrTraps>, vcpu: u16, known: CrTraps, reg: KvmCr)
    requires
        vcpu < traps.len(),
        traps[vcpu as int].traps(reg) == known.traps(reg),
    ensures
        traps_after_all(traps, release_trap(vcpu, known, reg)) == traps.update(
            vcpu as int,
            traps[vcpu as int].with(reg, false),
        ),
{
    if known.traps(reg) {
        lemma_traps_after_one(traps, KvmCommand::ControlCr { vcpu, reg, enabled: false });
    }
}

/// The cleanup of one VCPU leaves it without a trap and the others as
/// they were.
proof fn lemma_vcpu_cleaned(traps: Seq<CrTraps>, vcpu: u16)
    requires
        vcpu < traps.len(),
    ensures
        traps_after_all(traps, vcpu_cleanup(vcpu, traps[vcpu as int])) == traps.update(
            vcpu as int,
            CrTraps::none(),
        ),
{
    let known = traps[vcpu as int];
    let r0 = release_trap(vcpu, known, KvmCr::Cr0);
    let r3 = release_trap(vcpu, known, KvmCr::Cr3);
    let r4 = release_trap(vcpu, known, KvmCr::Cr4);
    let off = KvmCommand::ControlCrEvents { vcpu, enabled: false };
    let t0 = traps_after_all(traps, r0);
    lemma_trap_released(traps, vcpu, known, KvmCr::Cr0);
    let t3 = traps_after_all(t0, r3);
    lemma_trap_released(t0, vcpu, known, KvmCr::Cr3);
    let t4 = traps_after_all(t3, r4);
    lemma_trap_released(t3, vcpu, known, KvmCr::Cr4);
    lemma_traps_after_one(t4, off);
    lemma_traps_after_both(traps, r0, r3);
    lemma_traps_after_both(traps, r0 + r3, r4);
    lemma_traps_after_both(traps, r0 + r3 + r4, seq![off]);
}

/// The cleanup plan of the first `cleared` VCPUs releases their traps,
/// leaves the other VCPUs as they were, and switches the control-register
/// events of each of them off.
proof fn lemma_cleanup_prefix(traps: Seq<CrTraps>, cleared: nat)
    requires
        cleared <= traps.len() <= u16::MAX,
    ensures
        traps_after_all(traps, cleanup_plan(traps.take(cleared as int))) == traps_cleared(
            traps,
            cleared as int,
        ),
        forall|vcpu: u16|
            vcpu < cleared ==> #[trigger] cleanup_plan(traps.take(cleared as int)).contains(
                KvmCommand::ControlCrEvents { vcpu, enabled: false },
            ),
    decreases cleared,
{
    if cleared > 0 {
        let before = traps.take(cleared - 1);
        let last = (cleared - 1) as u16;
        assert(traps.take(cleared as int).drop_last() =~= before);
        lemma_cleanup_prefix(traps, (cleared - 1) as nat);
        let plan = cleanup_plan(before);
        let tail = vcpu_cleanup(last, traps[cleared - 1]);
        lemma_traps_after_both(traps, plan, tail);
        lemma_vcpu_cleaned(traps_cleared(traps, cleared - 1), last);
        assert forall|vcpu: u16| vcpu < cleared implies #[trigger] (plan + tail).contains(
            KvmCommand::ControlCrEvents { vcpu, enabled: false },
        ) by {
            let wanted = KvmCommand::ControlCrEvents { vcpu, enabled: false };
            if vcpu < last {
                // an earlier VCPU has its command in the plan so far, at the same place
                assert(plan.contains(wanted));
                let at = choose|at: int| 0 <= at < plan.len() && plan[at] == wanted;
                assert((plan + tail)[at] == wanted);
            } else {
                // the last VCPU has it at the very end
                assert((plan + tail)[plan.len() + tail.len() - 1] == wanted);
            }
        }
    }
}

/// Giving the adapter up leaves no interception behind: once the commands
/// of the cleanup plan have been carried out no control register of any
/// VCPU is trapped, and the plan switches the control-register events of
/// every VCPU off.
pub proof fn lemma_cleanup_releases_every_trap(traps: Seq<CrTraps>)
    requires
        traps.len() <= u16::MAX,
    ensures
        traps_after_all(traps, cleanup_plan(traps)) == traps_cleared(traps, traps.len() as int),
        forall|vcpu: u16|
            vcpu < traps.len() ==> traps_after_all(traps, cleanup_plan(traps))[vcpu as int]
                == CrTraps::none(),
        forall|vcpu: u16|
            vcpu < traps.len() ==> #[trigger] cleanup_plan(traps).contains(
                KvmCommand::ControlCrEvents { vcpu, enabled: false },
            ),
{
    assert(traps.take(traps.len() as int) =~= traps);
    lemma_cleanup_prefix(traps, traps.len());
}

} // verus!
