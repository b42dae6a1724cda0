use plunger::erase::{erase_result, EraseOperation, EraseRequest, EraseStep, EraseWorkflow};
use plunger::eraser::{EraserError, EraserState, ProbeReply, ProtectionLevel};
use plunger::probe::ProbeDescriptor;
use plunger::response::{FailureCategory, Outcome, ProvisioningResult};

fn request_for(target: &str) -> EraseRequest {
    EraseRequest {
        probe: ProbeDescriptor::new(0x0483, 0x374b, Some("066CFF".to_string())),
        target: target.to_string(),
    }
}

/// Runs an erase workflow against a scripted driver. Returns the operations
/// that were asked for and the result; panics if the script runs out.
fn run_erase(
    target: &str,
    script: &[ProbeReply],
) -> (Vec<EraseOperation>, ProvisioningResult<()>) {
    let mut asked = Vec::new();
    let mut replies = script.iter();
    let mut step = EraseWorkflow::submit(request_for(target));
    loop {
        match step {
            EraseStep::Continue(workflow, operation) => {
                asked.push(operation);
                let reply = *replies.next().expect("the script ran out of replies");
                step = workflow.advance(reply);
            }
            EraseStep::Finished(result) => return (asked, result),
        }
    }
}

#[test]
fn unsupported_target_is_rejected_without_any_probe_operation() {
    let (asked, result) = run_erase("STM32F103C8", &[]);
    assert!(asked.is_empty());
    assert_eq!(result.outcome, Outcome::Failure(FailureCategory::InvalidTarget));
    assert_eq!(result.message, "Invalid target");
    assert_eq!(result.status, 200);
    assert!(result.details.is_none());
}

#[test]
fn empty_target_is_rejected_without_any_probe_operation() {
    let (asked, result) = run_erase("", &[]);
    assert!(asked.is_empty());
    assert_eq!(result.outcome, Outcome::Failure(FailureCategory::InvalidTarget));
}

#[test]
fn supported_target_starts_with_a_reading_by_its_own_eraser() {
    match EraseWorkflow::submit(request_for("STM32L053R8Tx")) {
        EraseStep::Continue(workflow, operation) => {
            assert_eq!(operation, EraseOperation::ReadProtection);
            let eraser = workflow.instance();
            assert_eq!(eraser.target_name(), "STM32L053R8Tx");
            assert_eq!(eraser.probe_descriptor().vendor_id, 0x0483);
            assert_eq!(eraser.probe_descriptor().product_id, 0x374b);
            assert_eq!(eraser.probe_descriptor().serial_number, Some("066CFF".to_string()));
            assert_eq!(eraser.state(), EraserState::Uninitialized);
        }
        EraseStep::Finished(_) => panic!("a supported target was rejected"),
    }
}

#[test]
fn unprotected_device_is_done_after_one_reading() {
    let (asked, result) =
        run_erase("STM32L053R8Tx", &[ProbeReply::Protection(0xAA), ProbeReply::Done]);
    assert_eq!(asked, vec![EraseOperation::ReadProtection, EraseOperation::Disconnect]);
    assert_eq!(result.outcome, Outcome::Success);
    assert_eq!(result.message, "Flash erased");
    assert_eq!(result.status, 200);
    assert!(result.is_success());
}

#[test]
fn protected_device_is_unlocked_verified_and_done() {
    let (asked, result) = run_erase(
        "STM32L053R8Tx",
        &[
            ProbeReply::Protection(0x00),
            ProbeReply::Done,
            ProbeReply::Protection(0xAA),
            ProbeReply::Done,
        ],
    );
    assert_eq!(
        asked,
        vec![
            EraseOperation::ReadProtection,
            EraseOperation::Unlock,
            EraseOperation::ReadProtection,
            EraseOperation::Disconnect,
        ]
    );
    assert_eq!(result.outcome, Outcome::Success);
    assert_eq!(result.message, "Flash erased");
}

#[test]
fn unlock_without_effect_is_reported_as_invalid_level() {
    let (asked, result) = run_erase(
        "STM32L053R8Tx",
        &[
            ProbeReply::Protection(0x00),
            ProbeReply::Done,
            ProbeReply::Protection(0x00),
            ProbeReply::Done,
        ],
    );
    assert_eq!(
        asked,
        vec![
            EraseOperation::ReadProtection,
            EraseOperation::Unlock,
            EraseOperation::ReadProtection,
            EraseOperation::Disconnect,
        ]
    );
    assert_eq!(result.outcome, Outcome::Failure(FailureCategory::InvalidProtectionLevel));
    assert_eq!(result.message, "Invalid RDP level");
    assert_eq!(result.status, 200);
}

#[test]
fn permanently_protected_device_is_reported_as_invalid_level() {
    let (asked, result) =
        run_erase("STM32L053R8Tx", &[ProbeReply::Protection(0xCC), ProbeReply::Done]);
    assert_eq!(asked, vec![EraseOperation::ReadProtection, EraseOperation::Disconnect]);
    assert_eq!(result.outcome, Outcome::Failure(FailureCategory::InvalidProtectionLevel));
    assert_eq!(result.message, "Invalid RDP level");
}

#[test]
fn session_fault_is_reported_as_invalid_session() {
    let (asked, result) =
        run_erase("STM32L053R8Tx", &[ProbeReply::SessionFault, ProbeReply::Done]);
    assert_eq!(asked, vec![EraseOperation::ReadProtection, EraseOperation::Disconnect]);
    assert_eq!(result.outcome, Outcome::Failure(FailureCategory::SessionError));
    assert_eq!(result.message, "Invalid session");
}

#[test]
fn probe_fault_is_reported_as_probe_trouble() {
    let (asked, result) = run_erase("STM32L053R8Tx", &[ProbeReply::ProbeFault, ProbeReply::Done]);
    assert_eq!(asked, vec![EraseOperation::ReadProtection, EraseOperation::Disconnect]);
    assert_eq!(result.outcome, Outcome::Failure(FailureCategory::DebugProbeError));
    assert_eq!(result.message, "Something wrong with debug probe");
}

#[test]
fn part_unknown_to_the_driver_is_reported_as_invalid_target() {
    let (asked, result) =
        run_erase("STM32L0-no-such-part", &[ProbeReply::TargetUnknown, ProbeReply::Done]);
    assert_eq!(asked, vec![EraseOperation::ReadProtection, EraseOperation::Disconnect]);
    assert_eq!(result.outcome, Outcome::Failure(FailureCategory::InvalidTarget));
    assert_eq!(result.message, "Invalid target");
}

#[test]
fn fault_during_unlock_ends_the_workflow() {
    let (asked, result) = run_erase(
        "STM32L053R8Tx",
        &[ProbeReply::Protection(0x00), ProbeReply::ProbeFault, ProbeReply::Done],
    );
    assert_eq!(
        asked,
        vec![EraseOperation::ReadProtection, EraseOperation::Unlock, EraseOperation::Disconnect]
    );
    assert_eq!(result.outcome, Outcome::Failure(FailureCategory::DebugProbeError));
}

#[test]
fn fault_during_verification_ends_the_workflow() {
    let (asked, result) = run_erase(
        "STM32L053R8Tx",
        &[
            ProbeReply::Protection(0x00),
            ProbeReply::Done,
            ProbeReply::SessionFault,
            ProbeReply::Done,
        ],
    );
    assert_eq!(asked.last(), Some(&EraseOperation::Disconnect));
    assert_eq!(asked.len(), 4);
    assert_eq!(result.outcome, Outcome::Failure(FailureCategory::SessionError));
}

#[test]
fn disconnect_is_asked_exactly_once_and_last() {
    let scripts: Vec<Vec<ProbeReply>> = vec![
        vec![ProbeReply::Protection(0xAA), ProbeReply::Done],
        vec![ProbeReply::Protection(0xCC), ProbeReply::Done],
        vec![ProbeReply::ProbeFault, ProbeReply::Done],
        vec![ProbeReply::Protection(0x00), ProbeReply::SessionFault, ProbeReply::Done],
        vec![
            ProbeReply::Protection(0x00),
            ProbeReply::Done,
            ProbeReply::Protection(0x33),
            ProbeReply::Done,
        ],
    ];
    for script in scripts {
        let (asked, _) = run_erase("STM32L053R8Tx", &script);
        let count = asked.iter().filter(|op| **op == EraseOperation::Disconnect).count();
        assert_eq!(count, 1);
        assert_eq!(asked.last(), Some(&EraseOperation::Disconnect));
    }
}

#[test]
fn the_reply_to_disconnect_does_not_matter() {
    for last in [ProbeReply::Done, ProbeReply::ProbeFault, ProbeReply::Protection(0x00)] {
        let (_, result) = run_erase("STM32L053R8Tx", &[ProbeReply::Protection(0xAA), last]);
        assert_eq!(result.outcome, Outcome::Success);
    }
}

#[test]
fn workflow_keeps_state_of_its_eraser_in_view() {
    let step = EraseWorkflow::submit(request_for("STM32L053R8Tx"));
    let workflow = match step {
        EraseStep::Continue(workflow, _) => workflow,
        EraseStep::Finished(_) => panic!("rejected"),
    };
    let step = workflow.advance(ProbeReply::Protection(0x42));
    match step {
        EraseStep::Continue(workflow, operation) => {
            assert_eq!(operation, EraseOperation::Unlock);
            assert_eq!(workflow.instance().state(), EraserState::Unlocking);
            assert_eq!(
                workflow.instance().protection_level(),
                Some(ProtectionLevel::Protected)
            );
        }
        EraseStep::Finished(_) => panic!("finished too early"),
    }
}

#[test]
fn each_verdict_has_its_result() {
    let ok = erase_result(Ok(()));
    assert_eq!(ok.outcome, Outcome::Success);
    assert_eq!(ok.message, "Flash erased");
    let cases = [
        (EraserError::InvalidTarget, FailureCategory::InvalidTarget, "Invalid target"),
        (
            EraserError::InvalidProtectionLevel,
            FailureCategory::InvalidProtectionLevel,
            "Invalid RDP level",
        ),
        (EraserError::SessionError, FailureCategory::SessionError, "Invalid session"),
        (
            EraserError::DebugProbeError,
            FailureCategory::DebugProbeError,
            "Something wrong with debug probe",
        ),
    ];
    for (error, category, message) in cases {
        let result = erase_result(Err(error));
        assert_eq!(result.outcome, Outcome::Failure(category));
        assert_eq!(result.message, message);
        assert_eq!(result.status, 200);
        assert!(result.details.is_none());
    }
}
