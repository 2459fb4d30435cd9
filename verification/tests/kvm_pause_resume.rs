use std::collections::VecDeque;

use microvmi::api::VmiError;
use microvmi::driver::kvm::native::{KvmCommand, KvmEvent, KvmEventKind, KvmEventReply};
use microvmi::driver::kvm::{Kvm, DRAIN_TIMEOUT_MS};

/// A hypervisor that answers from a script and notes what it was asked.
struct Stub {
    events: VecDeque<Option<KvmEvent>>,
    issued: Vec<KvmCommand>,
}

impl Stub {
    fn new(events: Vec<Option<KvmEvent>>) -> Stub {
        Stub { events: events.into_iter().collect(), issued: Vec::new() }
    }

    fn run(&mut self, cmd: KvmCommand) {
        self.issued.push(cmd);
    }

    fn wait(&mut self, cmd: KvmCommand) -> Option<KvmEvent> {
        self.issued.push(cmd);
        self.events.pop_front().expect("the script has run out of events")
    }
}

fn ack(vcpu: u16) -> Option<KvmEvent> {
    Some(KvmEvent { vcpu, kind: KvmEventKind::PauseVcpu })
}

fn cr3_write(vcpu: u16) -> Option<KvmEvent> {
    Some(KvmEvent {
        vcpu,
        kind: KvmEventKind::Cr {
            cr_type: microvmi::driver::kvm::native::KvmCr::Cr3,
            new: 0x2000,
            old: 0x1000,
        },
    })
}

fn pause(kvm: &mut Kvm, stub: &mut Stub) -> Result<(), VmiError> {
    match kvm.pause() {
        None => Ok(()),
        Some(cmd) => {
            stub.run(cmd);
            kvm.completed(&cmd, Ok(()))
        }
    }
}

fn resume(kvm: &mut Kvm, stub: &mut Stub) -> Result<(), VmiError> {
    while let Some(wait) = kvm.resume() {
        let event = stub.wait(wait);
        if let Some(reply) = kvm.drain(event)? {
            stub.run(reply);
        }
    }
    Ok(())
}

/// Whether `pause` would issue a request: it does for a running guest only.
fn runs(kvm: &Kvm) -> bool {
    kvm.pause() == Some(KvmCommand::Pause)
}

/// The number of acknowledgements still outstanding, found by draining them.
fn outstanding(kvm: &mut Kvm) -> u32 {
    let mut n = 0;
    while kvm.resume().is_some() {
        kvm.drain(ack(0)).unwrap();
        n += 1;
    }
    n
}

fn wait_cmd() -> KvmCommand {
    KvmCommand::WaitEvent { ms: 1000 }
}

fn continue_cmd(vcpu: u16) -> KvmCommand {
    KvmCommand::Reply { vcpu, reply: KvmEventReply::Continue }
}

#[test]
fn resume_completes_after_two_acknowledgements() {
    let mut kvm = Kvm::new("some_vm", Ok(2)).unwrap();
    let mut stub = Stub::new(vec![ack(0), ack(1)]);
    assert!(runs(&kvm));
    assert_eq!(pause(&mut kvm, &mut stub), Ok(()));
    assert!(!runs(&kvm));
    assert_eq!(resume(&mut kvm, &mut stub), Ok(()));
    assert!(runs(&kvm));
    assert!(stub.events.is_empty());
    assert_eq!(
        stub.issued,
        vec![KvmCommand::Pause, wait_cmd(), continue_cmd(0), wait_cmd(), continue_cmd(1)]
    );
}

#[test]
fn resume_takes_acknowledgements_in_any_vcpu_order() {
    let mut kvm = Kvm::new("some_vm", Ok(2)).unwrap();
    let mut stub = Stub::new(vec![ack(1), ack(0)]);
    assert_eq!(pause(&mut kvm, &mut stub), Ok(()));
    assert_eq!(resume(&mut kvm, &mut stub), Ok(()));
    assert!(runs(&kvm));
    assert_eq!(
        stub.issued,
        vec![KvmCommand::Pause, wait_cmd(), continue_cmd(1), wait_cmd(), continue_cmd(0)]
    );
}

#[test]
fn resume_waits_again_after_a_timeout() {
    let mut kvm = Kvm::new("some_vm", Ok(2)).unwrap();
    let mut stub = Stub::new(vec![None, ack(0), None, None, ack(1)]);
    assert_eq!(pause(&mut kvm, &mut stub), Ok(()));
    assert_eq!(resume(&mut kvm, &mut stub), Ok(()));
    assert!(runs(&kvm));
    let replies: Vec<&KvmCommand> =
        stub.issued.iter().filter(|c| matches!(c, KvmCommand::Reply { .. })).collect();
    assert_eq!(replies, vec![&continue_cmd(0), &continue_cmd(1)]);
    let waits = stub.issued.iter().filter(|c| **c == wait_cmd()).count();
    assert_eq!(waits, 5);
}

#[test]
fn the_drain_waits_a_second_at_a_time() {
    assert_eq!(DRAIN_TIMEOUT_MS, 1000);
    let mut kvm = Kvm::new("some_vm", Ok(1)).unwrap();
    assert_eq!(kvm.completed(&KvmCommand::Pause, Ok(())), Ok(()));
    assert_eq!(kvm.resume(), Some(KvmCommand::WaitEvent { ms: 1000 }));
}

#[test]
fn pause_twice_issues_one_request() {
    let mut kvm = Kvm::new("some_vm", Ok(4)).unwrap();
    let mut stub = Stub::new(vec![]);
    assert_eq!(pause(&mut kvm, &mut stub), Ok(()));
    assert_eq!(pause(&mut kvm, &mut stub), Ok(()));
    assert_eq!(stub.issued, vec![KvmCommand::Pause]);
    assert_eq!(outstanding(&mut kvm), 4);
}

#[test]
fn pause_twice_issues_one_request_without_vcpus() {
    let mut kvm = Kvm::new("some_vm", Ok(0)).unwrap();
    let mut stub = Stub::new(vec![]);
    assert_eq!(pause(&mut kvm, &mut stub), Ok(()));
    assert!(!runs(&kvm));
    assert_eq!(pause(&mut kvm, &mut stub), Ok(()));
    assert_eq!(stub.issued, vec![KvmCommand::Pause]);
    assert_eq!(resume(&mut kvm, &mut stub), Ok(()));
    assert!(runs(&kvm));
    assert_eq!(stub.issued, vec![KvmCommand::Pause]);
}

#[test]
fn a_failed_pause_request_leaves_the_guest_running() {
    let mut kvm = Kvm::new("some_vm", Ok(2)).unwrap();
    let cmd = kvm.pause().unwrap();
    assert_eq!(
        kvm.completed(&cmd, Err("Connection reset by peer".to_string())),
        Err(VmiError::BackendOperationFailed("Connection reset by peer".to_string()))
    );
    assert_eq!(kvm.pause(), Some(KvmCommand::Pause));
    assert_eq!(kvm.resume(), None);
}

#[test]
fn resume_drains_exactly_as_many_acknowledgements_as_vcpus() {
    for n in [1u16, 3, 16] {
        let mut kvm = Kvm::new("some_vm", Ok(n as u32)).unwrap();
        let mut script: Vec<Option<KvmEvent>> = (0..n).map(ack).collect();
        // one more than resume may take
        script.push(ack(0));
        let mut stub = Stub::new(script);
        assert_eq!(pause(&mut kvm, &mut stub), Ok(()));
        assert_eq!(resume(&mut kvm, &mut stub), Ok(()));
        assert_eq!(stub.events.len(), 1);
        let waits = stub.issued.iter().filter(|c| **c == wait_cmd()).count();
        let replies = stub.issued.iter().filter(|c| matches!(c, KvmCommand::Reply { .. })).count();
        assert_eq!(waits, n as usize);
        assert_eq!(replies, n as usize);
    }
}

#[test]
fn resume_without_pause_does_nothing() {
    let mut kvm = Kvm::new("some_vm", Ok(2)).unwrap();
    let mut stub = Stub::new(vec![]);
    assert_eq!(resume(&mut kvm, &mut stub), Ok(()));
    assert_eq!(resume(&mut kvm, &mut stub), Ok(()));
    assert!(stub.issued.is_empty());
    assert!(runs(&kvm));
}

#[test]
fn another_event_while_draining_is_a_desync() {
    let mut kvm = Kvm::new("some_vm", Ok(2)).unwrap();
    let mut stub = Stub::new(vec![ack(0), cr3_write(1)]);
    assert_eq!(pause(&mut kvm, &mut stub), Ok(()));
    assert_eq!(resume(&mut kvm, &mut stub), Err(VmiError::ProtocolDesync));
    assert_eq!(kvm.pending_event(1), None);
    assert_eq!(outstanding(&mut kvm), 1);
}

#[test]
fn an_acknowledgement_with_nothing_to_drain_is_a_desync() {
    let mut kvm = Kvm::new("some_vm", Ok(2)).unwrap();
    assert_eq!(kvm.drain(ack(0)), Err(VmiError::ProtocolDesync));
    assert_eq!(kvm.drain(None), Err(VmiError::ProtocolDesync));
    assert!(runs(&kvm));
}

#[test]
fn an_acknowledgement_never_reaches_listen() {
    let mut kvm = Kvm::new("some_vm", Ok(2)).unwrap();
    assert_eq!(kvm.completed(&KvmCommand::Pause, Ok(())), Ok(()));
    assert_eq!(kvm.deliver(ack(0)), Err(VmiError::ProtocolDesync));
    assert_eq!(kvm.deliver(ack(1)), Err(VmiError::ProtocolDesync));
    assert_eq!(kvm.pending_event(0), None);
    assert_eq!(kvm.pending_event(1), None);
    assert_eq!(outstanding(&mut kvm), 2);
}
