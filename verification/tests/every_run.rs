use plunger::commit::CommitCause;
use plunger::erase::{EraseOperation, EraseRequest, EraseStep, EraseWorkflow};
use plunger::eraser::{decode_level, ProbeReply, ProtectionLevel};
use plunger::flash::{DriverReply, FlashForm, FlashOperation, FlashStep, FlashWorkflow};
use plunger::image::{MemoryMap, MemoryRegion, RegionKind};
use plunger::probe::ProbeDescriptor;
use plunger::response::{Outcome, ProvisioningResult};
use plunger::target::TargetFamily;

const PROBE_REPLIES: [ProbeReply; 7] = [
    ProbeReply::Protection(0xAA),
    ProbeReply::Protection(0x00),
    ProbeReply::Protection(0xCC),
    ProbeReply::Done,
    ProbeReply::TargetUnknown,
    ProbeReply::SessionFault,
    ProbeReply::ProbeFault,
];

fn small_map() -> MemoryMap {
    MemoryMap::new(vec![MemoryRegion {
        kind: RegionKind::Nvm,
        start: 0x0800_0000,
        end: 0x0800_0008,
        boot: true,
    }])
}

fn driver_reply(kind: usize) -> DriverReply {
    match kind {
        0 => DriverReply::Done,
        1 => DriverReply::Attached(small_map()),
        2 => DriverReply::Failed,
        _ => DriverReply::CommitFailed(CommitCause::VerifyMismatch),
    }
}

fn place(operation: &FlashOperation) -> u32 {
    match operation {
        FlashOperation::OpenProbe => 0,
        FlashOperation::Detach => 1,
        FlashOperation::SetSpeed(_) => 2,
        FlashOperation::AttachUnderReset => 3,
        FlashOperation::StagePlan | FlashOperation::ParseImage(_) => 4,
        FlashOperation::Commit(_) => 5,
        FlashOperation::ReleaseProbe | FlashOperation::ReleaseSession => 6,
    }
}

/// The digits of `number` in the given base, lowest first.
fn digits(mut number: usize, base: usize, count: usize) -> Vec<usize> {
    let mut out = Vec::with_capacity(count);
    for _ in 0..count {
        out.push(number % base);
        number /= base;
    }
    out
}

/// Runs an erase workflow until it is over or the replies run out.
fn run_erase(
    replies: Vec<ProbeReply>,
) -> (Vec<EraseOperation>, Vec<ProbeReply>, Option<ProvisioningResult<()>>) {
    let mut asked = Vec::new();
    let mut taken = Vec::new();
    let mut replies = replies.into_iter();
    let mut step = EraseWorkflow::submit(EraseRequest {
        probe: ProbeDescriptor::new(1, 2, None),
        target: "STM32L071".to_string(),
    });
    loop {
        match step {
            EraseStep::Finished(result) => return (asked, taken, Some(result)),
            EraseStep::Continue(workflow, operation) => {
                asked.push(operation);
                match replies.next() {
                    Some(reply) => {
                        taken.push(reply);
                        step = workflow.advance(reply);
                    }
                    None => return (asked, taken, None),
                }
            }
        }
    }
}

/// Runs a flash workflow until it is over or the replies run out. Returns
/// the operations asked for, the number of probes opened and of sessions
/// established, and the result.
fn run_flash(
    form: FlashForm,
    kinds: Vec<usize>,
) -> (Vec<FlashOperation>, usize, usize, Option<ProvisioningResult<()>>) {
    let mut asked = Vec::new();
    let mut probes = 0;
    let mut sessions = 0;
    let mut kinds = kinds.into_iter();
    let mut step = FlashWorkflow::submit(form);
    loop {
        match step {
            FlashStep::Finished(result) => return (asked, probes, sessions, Some(result)),
            FlashStep::Continue(workflow, operation) => {
                asked.push(operation);
                match kinds.next() {
                    Some(kind) => {
                        if operation == FlashOperation::OpenProbe && kind == 0 {
                            probes += 1;
                        }
                        if operation == FlashOperation::AttachUnderReset && kind == 1 {
                            sessions += 1;
                        }
                        step = workflow.advance(driver_reply(kind));
                    }
                    None => return (asked, probes, sessions, None),
                }
            }
        }
    }
}

#[test]
fn every_erase_run_closes_once_and_succeeds_only_on_evidence() {
    let length = 5;
    let mut finished = 0;
    let mut succeeded = 0;
    for script in 0..PROBE_REPLIES.len().pow(length as u32) {
        let replies: Vec<ProbeReply> = digits(script, PROBE_REPLIES.len(), length)
            .into_iter()
            .map(|kind| PROBE_REPLIES[kind])
            .collect();
        let (asked, taken, result) = run_erase(replies);
        let disconnects = asked.iter().filter(|op| **op == EraseOperation::Disconnect).count();
        let unlocks = asked.iter().filter(|op| **op == EraseOperation::Unlock).count();
        assert!(disconnects <= 1);
        assert!(unlocks <= 1);
        assert_eq!(asked.first(), Some(&EraseOperation::ReadProtection));
        if disconnects == 1 {
            assert_eq!(asked.last(), Some(&EraseOperation::Disconnect));
        }
        if let Some(ended) = result {
            finished += 1;
            assert_eq!(disconnects, 1);
            if ended.outcome == Outcome::Success {
                succeeded += 1;
                assert!(taken.iter().any(|reply| match reply {
                    ProbeReply::Protection(register) =>
                        decode_level(TargetFamily::Stm32l0, *register)
                            == ProtectionLevel::Unprotected,
                    _ => false,
                }));
            }
        }
    }
    assert!(finished > 0);
    assert!(succeeded > 0);
}

#[test]
fn every_flash_run_keeps_the_order_and_releases_what_it_acquired() {
    let length = 8;
    let mut finished = 0;
    let mut succeeded = 0;
    for tag in ["bin", "hex"] {
        for blob_length in [4usize, 16] {
            for script in 0..4usize.pow(length as u32) {
                let form = FlashForm {
                    blob: vec![0xA5; blob_length],
                    fw_type: tag.to_string(),
                    fw_ver: 1,
                    probe_sn: "sn".to_string(),
                    speed_khz: 100,
                    probe_vid: 1,
                    probe_pid: 2,
                    target_name: "T".to_string(),
                    skip_erase: script % 2 == 0,
                };
                let (asked, probes, sessions, result) = run_flash(form, digits(script, 4, length));
                let count = |wanted: FlashOperation| {
                    asked.iter().filter(|operation| **operation == wanted).count()
                };
                for pair in asked.windows(2) {
                    assert!(place(&pair[0]) < place(&pair[1]), "{:?}", asked);
                }
                assert_eq!(count(FlashOperation::OpenProbe), 1);
                assert!(probes <= 1);
                assert!(sessions <= 1);
                assert!(count(FlashOperation::ReleaseSession) <= sessions);
                assert!(
                    count(FlashOperation::ReleaseProbe) + count(FlashOperation::AttachUnderReset)
                        <= probes
                );
                if let Some(ended) = result {
                    finished += 1;
                    assert_eq!(count(FlashOperation::ReleaseSession), sessions, "{:?}", asked);
                    assert_eq!(
                        count(FlashOperation::ReleaseProbe)
                            + count(FlashOperation::AttachUnderReset),
                        probes
                    );
                    if ended.outcome == Outcome::Success {
                        succeeded += 1;
                        assert_eq!(asked.len(), 7);
                        assert_eq!(asked.last(), Some(&FlashOperation::ReleaseSession));
                        assert!(asked.iter().any(|op| matches!(op, FlashOperation::Commit(_))));
                    }
                }
            }
        }
    }
    assert!(finished > 0);
    assert!(succeeded > 0);
}
