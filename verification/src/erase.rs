//! The erase workflow: from a request to a device whose flash protection is
//! lifted, or to the reason why it is not.
//!
//! The workflow picks the eraser by the target's family, lets it read the
//! protection, asks it for the mass erase as soon as it is made, closes the
//! connection to the target, and reports. The caller carries out each
//! operation that the workflow names and hands the driver's reply back.

use vstd::prelude::*;
use crate::eraser::{
    level_in, pending, EraserAction, EraserCore, EraserError, EraserInstance, EraserState,
    ProbeReply, ProtectionLevel,
};
use crate::probe::ProbeDescriptor;
use crate::response::{Outcome, ProvisioningResult, STATUS_OK};
use crate::target::{family_for, TargetFamily};

verus! {

/// A request to lift the flash protection of a target.
#[derive(Debug)]
pub struct EraseRequest {
    pub probe: ProbeDescriptor,
    pub target: String,
}

/// An operation that the erase workflow asks its driver to carry out.
#[derive(Clone, Copy, PartialEq, Eq, Debug, Structural)]
pub enum EraseOperation {
    /// Read the protection register of the target, over the preliminary
    /// connection, opening that connection first where it is not open.
    ReadProtection,
    /// Run the family's unlock sequence.
    Unlock,
    /// Close the connection to the target, where one is open, and release
    /// the probe.
    Disconnect,
}

/// How the eraser of a workflow ended.
pub type EraseVerdict = Result<(), EraserError>;

/// What decides the workflow's behaviour: the eraser's core, and how the
/// eraser ended once it has.
pub struct EraseControl {
    pub core: EraserCore,
    pub verdict: Option<EraseVerdict>,
}

/// The message of a successful erase.
pub open spec fn erased_text() -> Seq<char> {
    "Flash erased"@
}

/// The verdict that an eraser's state carries, once it has ended.
pub open spec fn verdict_in(state: EraserState) -> Option<EraseVerdict> {
    match pending(state) {
        EraserAction::Succeed => Some(Ok(())),
        EraserAction::Fail(error) => Some(Err(error)),
        _ => None,
    }
}

impl EraseControl {
    /// The control of a workflow that was just accepted.
    pub open spec fn initial() -> EraseControl {
        EraseControl { core: EraserCore::initial(), verdict: None }
    }

    /// Whether eraser and verdict fit together: while the eraser runs it has
    /// an operation under way, and a verdict is the one its state carries.
    pub open spec fn wf(self) -> bool {
        &&& self.core.wf()
        &&& self.verdict == verdict_in(self.core.state)
        &&& !(self.core.state is ProtectionRead)
    }

    /// The control after the driver's reply.
    ///
    /// While the eraser runs, the reply goes to the eraser, and an eraser
    /// that is thereby made is asked for the mass erase at once. Once the
    /// eraser has ended nothing changes any more.
    pub open spec fn after(self, family: TargetFamily, reply: ProbeReply) -> EraseControl {
        if self.verdict is Some {
            self
        } else {
            let core = self.core.after_reply(family, reply).after_request();
            EraseControl { core, verdict: verdict_in(core.state) }
        }
    }

    /// The operation that a workflow under this control waits for.
    pub open spec fn operation(self) -> EraseOperation {
        if self.verdict is Some {
            EraseOperation::Disconnect
        } else if self.core.state is Unlocking {
            EraseOperation::Unlock
        } else {
            EraseOperation::ReadProtection
        }
    }
}

/// The result that the caller receives for a verdict.
pub open spec fn reports(result: ProvisioningResult<()>, verdict: EraseVerdict) -> bool {
    &&& result.status == STATUS_OK
    &&& result.details is None
    &&& match verdict {
        Ok(_) => result.outcome == Outcome::Success && result.message@ == erased_text(),
        Err(error) => result.outcome == Outcome::Failure(error.category_of()) && result.message@
            == error.message_text(),
    }
}

/// Builds the result that the caller receives for a verdict.
pub fn erase_result(verdict: EraseVerdict) -> (result: ProvisioningResult<()>)
    ensures
        reports(result, verdict),
{
    match verdict {
        Ok(_) => ProvisioningResult::success("Flash erased".to_owned()),
        Err(error) => error.into_result(),
    }
}

/// An erase workflow between two operations.
#[derive(Debug)]
pub struct EraseWorkflow {
    eraser: EraserInstance,
    verdict: Option<EraseVerdict>,
}

/// What the erase workflow does next.
#[derive(Debug)]
pub enum EraseStep {
    /// The driver carries out the operation and hands its reply to the
    /// workflow.
    Continue(EraseWorkflow, EraseOperation),
    /// The workflow is over and this is its result.
    Finished(ProvisioningResult<()>),
}

impl EraseWorkflow {
    /// The eraser that the workflow runs.
    pub closed spec fn eraser(&self) -> EraserInstance {
        self.eraser
    }

    /// The eraser's core, and the verdict once there is one.
    pub closed spec fn control(&self) -> EraseControl {
        EraseControl { core: self.eraser.machine(), verdict: self.verdict }
    }

    /// Whether the workflow is sound: its eraser is, and eraser and verdict
    /// fit together. Every workflow is.
    pub open spec fn wf(&self) -> bool {
        &&& self.eraser().wf()
        &&& self.control().wf()
        &&& self.control().core == self.eraser().machine()
    }

    #[verifier::type_invariant]
    spec fn sound(&self) -> bool {
        self.wf()
    }

    /// Accepts a request.
    ///
    /// Where no supported family claims the target, the workflow is over at
    /// once with `InvalidTarget`, and nothing was asked of any probe.
    /// Otherwise the eraser of the target's family is made, and the first
    /// operation is a reading of the protection register.
    pub fn submit(request: EraseRequest) -> (step: EraseStep)
        ensures
            match step {
                EraseStep::Continue(workflow, operation) => {
                    &&& family_for(request.target@) == Some(workflow.eraser().family())
                    &&& workflow.eraser().target() == request.target
                    &&& workflow.eraser().probe() == request.probe
                    &&& workflow.control() == EraseControl::initial()
                    &&& operation == EraseOperation::ReadProtection
                    &&& workflow.wf()
                },
                EraseStep::Finished(result) => {
                    &&& family_for(request.target@) is None
                    &&& reports(result, Err(EraserError::InvalidTarget))
                },
            },
    {
        match EraserInstance::create(request.target, request.probe) {
            Ok(eraser) => EraseStep::Continue(
                EraseWorkflow { eraser, verdict: None },
                EraseOperation::ReadProtection,
            ),
            Err(error) => EraseStep::Finished(erase_result(Err(error))),
        }
    }

    /// Takes the driver's reply to the operation that the workflow waited
    /// for, and says what comes next.
    ///
    /// While the eraser runs, the next operation is the one the eraser asks
    /// for. When the eraser has ended, the next operation is `Disconnect`.
    /// After that the workflow is over, with the result of the eraser's
    /// verdict.
    pub fn advance(self, reply: ProbeReply) -> (step: EraseStep)
        ensures
            match step {
                EraseStep::Continue(workflow, operation) => {
                    &&& self.control().verdict is None
                    &&& workflow.control() == self.control().after(self.eraser().family(), reply)
                    &&& operation == workflow.control().operation()
                    &&& workflow.eraser().target() == self.eraser().target()
                    &&& workflow.eraser().probe() == self.eraser().probe()
                    &&& workflow.eraser().family() == self.eraser().family()
                    &&& workflow.wf()
                },
                EraseStep::Finished(result) => {
                    &&& self.control().verdict matches Some(verdict)
                    &&& reports(result, verdict)
                },
            },
    {
        proof {
            use_type_invariant(&self);
        }
        let EraseWorkflow { eraser, verdict } = self;
        let mut eraser = eraser;
        match verdict {
            Some(verdict) => EraseStep::Finished(erase_result(verdict)),
            None => {
                let told = eraser.report(reply);
                let action = match told {
                    EraserAction::Ready => eraser.mass_erase(),
                    _ => told,
                };
                let (verdict, operation) = match action {
                    EraserAction::Succeed => (Some(Ok(())), EraseOperation::Disconnect),
                    EraserAction::Fail(error) => (Some(Err(error)), EraseOperation::Disconnect),
                    EraserAction::Unlock => (None, EraseOperation::Unlock),
                    _ => (None, EraseOperation::ReadProtection),
                };
                EraseStep::Continue(EraseWorkflow { eraser, verdict }, operation)
            },
        }
    }

    /// The eraser that the workflow runs: it names the target and the probe.
    pub fn instance(&self) -> (eraser: &EraserInstance)
        ensures
            *eraser == self.eraser(),
    {
        &self.eraser
    }
}

/// A workflow reports success only for a device that it read as unprotected,
/// and a failure only with the error on which its eraser ended.
pub proof fn lemma_verdict_is_earned(control: EraseControl)
    requires
        control.wf(),
    ensures
        control.verdict == Some(Ok::<(), EraserError>(())) ==> control.core.level == Some(
            ProtectionLevel::Unprotected,
        ),
        control.verdict matches Some(Err(error)) ==> pending(control.core.state)
            == EraserAction::Fail(error),
        control.verdict is None ==> !control.core.ended(),
{
}

/// The connection is closed exactly when the eraser has ended: a workflow
/// asks for `Disconnect` once, as the last operation before it is over, and
/// never while its eraser runs.
pub proof fn lemma_disconnect_comes_last(
    control: EraseControl,
    family: TargetFamily,
    reply: ProbeReply,
    later: ProbeReply,
)
    requires
        control.wf(),
        control.verdict is None,
    ensures
        control.operation() != EraseOperation::Disconnect,
        control.after(family, reply).wf(),
        control.after(family, reply).operation() == EraseOperation::Disconnect
            <==> control.after(family, reply).verdict is Some,
        control.after(family, reply).verdict is Some ==> control.after(family, reply).after(
            family,
            later,
        ) == control.after(family, reply),
{
}

/// What a run of the erase workflow comes to: the operations asked for, in
/// order, and the verdict once the workflow is over.
pub struct EraseRun {
    pub operations: Seq<EraseOperation>,
    pub verdict: Option<EraseVerdict>,
}

/// The run of a workflow under a control that is handed replies one after
/// the other. Replies that come after the workflow is over are not taken.
pub open spec fn run_from(
    control: EraseControl,
    family: TargetFamily,
    replies: Seq<ProbeReply>,
) -> EraseRun
    decreases replies.len(),
{
    if replies.len() == 0 {
        EraseRun { operations: Seq::empty(), verdict: None }
    } else if control.verdict is Some {
        EraseRun { operations: Seq::empty(), verdict: control.verdict }
    } else {
        let next = control.after(family, replies[0]);
        let rest = run_from(next, family, replies.drop_first());
        EraseRun { operations: seq![next.operation()] + rest.operations, verdict: rest.verdict }
    }
}

/// The run of a workflow for a target that a family claims: it reads the
/// protection, and goes on as the replies say.
pub open spec fn run(family: TargetFamily, replies: Seq<ProbeReply>) -> EraseRun {
    let rest = run_from(EraseControl::initial(), family, replies);
    EraseRun {
        operations: seq![EraseOperation::ReadProtection] + rest.operations,
        verdict: rest.verdict,
    }
}

/// How often `Disconnect` is asked for among operations.
pub open spec fn disconnects(operations: Seq<EraseOperation>) -> nat
    decreases operations.len(),
{
    if operations.len() == 0 {
        0
    } else {
        let first: nat = if operations[0] == EraseOperation::Disconnect {
            1
        } else {
            0
        };
        first + disconnects(operations.drop_first())
    }
}

/// How often `Unlock` is asked for among operations.
pub open spec fn unlocks(operations: Seq<EraseOperation>) -> nat
    decreases operations.len(),
{
    if operations.len() == 0 {
        0
    } else {
        let first: nat = if operations[0] == EraseOperation::Unlock {
            1
        } else {
            0
        };
        first + unlocks(operations.drop_first())
    }
}

/// Whether a reply brings a reading of the protection register that shows
/// no protection.
pub open spec fn shows_no_protection(family: TargetFamily, reply: ProbeReply) -> bool {
    match reply {
        ProbeReply::Protection(register) => level_in(family, register)
            == ProtectionLevel::Unprotected,
        _ => false,
    }
}

/// Whether some reply among the given ones shows no protection.
pub open spec fn some_shows_no_protection(family: TargetFamily, replies: Seq<ProbeReply>) -> bool {
    exists|i: int| 0 <= i < replies.len() && shows_no_protection(family, #[trigger] replies[i])
}

proof fn lemma_run_from(control: EraseControl, family: TargetFamily, replies: Seq<ProbeReply>)
    requires
        control.wf(),
    ensures
        ({
            let run = run_from(control, family, replies);
            let open: nat = if control.verdict is None {
                1
            } else {
                0
            };
            let locked: nat = if control.core.state is Uninitialized {
                1
            } else {
                0
            };
            &&& disconnects(run.operations) <= open
            &&& run.verdict is Some ==> disconnects(run.operations) == open
            &&& disconnects(run.operations) == 1 ==> run.operations.last()
                == EraseOperation::Disconnect
            &&& unlocks(run.operations) <= locked
            &&& run.verdict == Some(Ok::<(), EraserError>(())) && control.verdict is None
                ==> some_shows_no_protection(family, replies)
        }),
    decreases replies.len(),
{
    if replies.len() > 0 && control.verdict is None {
        let next = control.after(family, replies[0]);
        let rest = run_from(next, family, replies.drop_first());
        lemma_run_from(next, family, replies.drop_first());
        assert((seq![next.operation()] + rest.operations).drop_first() =~= rest.operations);
        if rest.operations.len() > 0 {
            assert((seq![next.operation()] + rest.operations).last() == rest.operations.last());
        }
        if run_from(control, family, replies).verdict == Some(Ok::<(), EraserError>(())) {
            if next.verdict is None {
                let i = choose|i: int|
                    0 <= i < replies.drop_first().len() && shows_no_protection(
                        family,
                        #[trigger] replies.drop_first()[i],
                    );
                assert(replies[i + 1] == replies.drop_first()[i]);
            } else {
                assert(shows_no_protection(family, replies[0]));
            }
        }
    }
}

/// In every run of the erase workflow the connection is closed at most
/// once, and when the workflow is over it has been closed exactly once, as
/// the last operation. The unlock sequence is asked for at most once. And a
/// run never succeeds on trust: before a success, the driver has read a
/// protection register that shows no protection.
pub proof fn lemma_runs_close_once_and_succeed_on_evidence(
    family: TargetFamily,
    replies: Seq<ProbeReply>,
)
    ensures
        ({
            let run = run(family, replies);
            &&& disconnects(run.operations) <= 1
            &&& unlocks(run.operations) <= 1
            &&& run.verdict is Some ==> disconnects(run.operations) == 1 && run.operations.last()
                == EraseOperation::Disconnect
            &&& run.verdict == Some(Ok::<(), EraserError>(())) ==> some_shows_no_protection(
                family,
                replies,
            )
        }),
{
    let rest = run_from(EraseControl::initial(), family, replies);
    lemma_run_from(EraseControl::initial(), family, replies);
    assert((seq![EraseOperation::ReadProtection] + rest.operations).drop_first()
        =~= rest.operations);
    if rest.operations.len() > 0 {
        assert((seq![EraseOperation::ReadProtection] + rest.operations).last()
            == rest.operations.last());
    }
}

} // verus!
