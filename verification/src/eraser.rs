//! Lifting flash protection ("mass erase") before a protected device is
//! reprogrammed.
//!
//! An eraser instance is a state machine. It asks its driver to read the
//! target's protection register or to run the family's unlock sequence, and
//! it is told what the driver found. Its states are
//!
//! ```text
//! Uninitialized -> ProtectionRead -> Unprotected
//!                                 -> Unlocking -> Verifying -> Unprotected
//!                                                           -> UnlockFailed
//! ```
//!
//! and `Faulted`, which every state with an operation under way reaches when
//! the probe or the session fails.

use vstd::prelude::*;
use crate::probe::ProbeDescriptor;
use crate::response::{FailureCategory, Outcome, ProvisioningResult, STATUS_OK};
use crate::target::{family_for, family_of, TargetFamily};

verus! {

/// How far a target's flash is protected against reading and writing from
/// outside.
#[derive(Clone, Copy, PartialEq, Eq, Debug, Structural)]
pub enum ProtectionLevel {
    /// No protection: the flash can be programmed.
    Unprotected,
    /// Protected, and the protection can be lifted by a mass erase.
    Protected,
    /// Protected for good: no unlock sequence lifts it.
    Locked,
}

/// The protection level that a family's protection register encodes.
///
/// On STM32L0 the lowest byte of the option register holds the readout
/// protection: `0xAA` is none, `0xCC` is permanent, every other value is the
/// protection that a mass erase lifts.
pub open spec fn level_in(family: TargetFamily, register: u32) -> ProtectionLevel {
    match family {
        TargetFamily::Stm32l0 => {
            if register % 256 == 0xAA {
                ProtectionLevel::Unprotected
            } else if register % 256 == 0xCC {
                ProtectionLevel::Locked
            } else {
                ProtectionLevel::Protected
            }
        },
    }
}

/// Reads the protection level out of the value of a family's protection
/// register.
pub fn decode_level(family: TargetFamily, register: u32) -> (level: ProtectionLevel)
    ensures
        level == level_in(family, register),
{
    match family {
        TargetFamily::Stm32l0 => {
            let readout: u32 = register % 256;
            if readout == 0xAA {
                ProtectionLevel::Unprotected
            } else if readout == 0xCC {
                ProtectionLevel::Locked
            } else {
                ProtectionLevel::Protected
            }
        },
    }
}

/// Why an eraser could not be made or could not lift the protection.
#[derive(Clone, Copy, PartialEq, Eq, Debug, Structural)]
pub enum EraserError {
    /// No supported family claims the target identity, or the driver does
    /// not know the part.
    InvalidTarget,
    /// The target reports a protection level that cannot be cleared, or it
    /// is still protected after the unlock sequence.
    InvalidProtectionLevel,
    /// The debug session needed to inspect the protection failed.
    SessionError,
    /// The probe or its transport failed.
    DebugProbeError,
}

impl EraserError {
    /// The message that the caller reads for this error.
    pub open spec fn message_text(self) -> Seq<char> {
        match self {
            EraserError::InvalidTarget => "Invalid target"@,
            EraserError::InvalidProtectionLevel => "Invalid RDP level"@,
            EraserError::SessionError => "Invalid session"@,
            EraserError::DebugProbeError => "Something wrong with debug probe"@,
        }
    }

    /// The category under which this error is surfaced.
    pub open spec fn category_of(self) -> FailureCategory {
        match self {
            EraserError::InvalidTarget => FailureCategory::InvalidTarget,
            EraserError::InvalidProtectionLevel => FailureCategory::InvalidProtectionLevel,
            EraserError::SessionError => FailureCategory::SessionError,
            EraserError::DebugProbeError => FailureCategory::DebugProbeError,
        }
    }

    /// The message that the caller reads for this error.
    pub fn message(self) -> (text: &'static str)
        ensures
            text@ == self.message_text(),
    {
        match self {
            EraserError::InvalidTarget => "Invalid target",
            EraserError::InvalidProtectionLevel => "Invalid RDP level",
            EraserError::SessionError => "Invalid session",
            EraserError::DebugProbeError => "Something wrong with debug probe",
        }
    }

    /// The category under which this error is surfaced.
    pub fn category(self) -> (category: FailureCategory)
        ensures
            category == self.category_of(),
    {
        match self {
            EraserError::InvalidTarget => FailureCategory::InvalidTarget,
            EraserError::InvalidProtectionLevel => FailureCategory::InvalidProtectionLevel,
            EraserError::SessionError => FailureCategory::SessionError,
            EraserError::DebugProbeError => FailureCategory::DebugProbeError,
        }
    }

    /// The result that the caller receives for this error: a failure of the
    /// error's category with the error's message and nothing else.
    pub fn into_result(self) -> (result: ProvisioningResult<()>)
        ensures
            result.outcome == Outcome::Failure(self.category_of()),
            result.status == STATUS_OK,
            result.message@ == self.message_text(),
            result.details is None,
    {
        ProvisioningResult::failure(self.category(), STATUS_OK, self.message().to_owned())
    }
}

/// Different errors read differently and fall under different categories.
pub proof fn lemma_eraser_errors_are_told_apart(first: EraserError, second: EraserError)
    requires
        first != second,
    ensures
        first.message_text() != second.message_text(),
        first.category_of() != second.category_of(),
{
    reveal_strlit("Invalid target");
    reveal_strlit("Invalid RDP level");
    reveal_strlit("Invalid session");
    reveal_strlit("Something wrong with debug probe");
    assert("Invalid target"@.len() == 14);
    assert("Invalid RDP level"@.len() == 17);
    assert("Invalid session"@.len() == 15);
    assert("Something wrong with debug probe"@.len() == 32);
}

/// The states of an eraser instance.
#[derive(Clone, Copy, PartialEq, Eq, Debug, Structural)]
pub enum EraserState {
    /// Made, with the first reading of the protection register under way.
    Uninitialized,
    /// The protection level is known; no mass erase was asked for yet.
    ProtectionRead,
    /// The device is unprotected: the mass erase succeeded.
    Unprotected,
    /// The unlock sequence is under way.
    Unlocking,
    /// The reading that follows the unlock sequence is under way.
    Verifying,
    /// The device was still protected after the unlock sequence.
    UnlockFailed,
    /// An operation failed for the given reason.
    Faulted(EraserError),
}

/// What the driver tells an eraser instance about the operation it ran.
#[derive(Clone, Copy, PartialEq, Eq, Debug, Structural)]
pub enum ProbeReply {
    /// The protection register was read and holds this value.
    Protection(u32),
    /// The operation ran to its end.
    Done,
    /// The driver does not know the part that the target identity names.
    TargetUnknown,
    /// The debug session failed.
    SessionFault,
    /// The probe or its transport failed.
    ProbeFault,
}

/// What an eraser instance asks of its driver, or reports to its owner.
#[derive(Clone, Copy, PartialEq, Eq, Debug, Structural)]
pub enum EraserAction {
    /// Read the protection register, over the preliminary connection to the
    /// target, opening that connection first where it is not open.
    ReadProtection,
    /// Run the family's unlock sequence, reset cycle included.
    Unlock,
    /// Nothing: the instance is made and waits for a mass erase to be asked.
    Ready,
    /// Nothing more: the device is unprotected.
    Succeed,
    /// Nothing more: the instance failed for the given reason.
    Fail(EraserError),
}

/// What decides an instance's behaviour: its state and the protection level
/// it read last.
#[derive(Clone, Copy, PartialEq, Eq, Debug, Structural)]
pub struct EraserCore {
    pub state: EraserState,
    pub level: Option<ProtectionLevel>,
}

/// The error that stands for a reply which reports a failure, or which does
/// not answer the operation under way.
pub open spec fn fault_in(reply: ProbeReply) -> EraserError {
    match reply {
        ProbeReply::TargetUnknown => EraserError::InvalidTarget,
        ProbeReply::SessionFault => EraserError::SessionError,
        _ => EraserError::DebugProbeError,
    }
}

/// What an instance in a given state asks for or reports.
pub open spec fn pending(state: EraserState) -> EraserAction {
    match state {
        EraserState::Uninitialized => EraserAction::ReadProtection,
        EraserState::ProtectionRead => EraserAction::Ready,
        EraserState::Unprotected => EraserAction::Succeed,
        EraserState::Unlocking => EraserAction::Unlock,
        EraserState::Verifying => EraserAction::ReadProtection,
        EraserState::UnlockFailed => EraserAction::Fail(EraserError::InvalidProtectionLevel),
        EraserState::Faulted(error) => EraserAction::Fail(error),
    }
}

impl EraserCore {
    /// The core of an instance that was just made.
    pub open spec fn initial() -> EraserCore {
        EraserCore { state: EraserState::Uninitialized, level: None }
    }

    /// Whether the state and the level read last fit together.
    pub open spec fn wf(self) -> bool {
        match self.state {
            EraserState::Uninitialized => self.level is None,
            EraserState::ProtectionRead => self.level == Some(ProtectionLevel::Unprotected)
                || self.level == Some(ProtectionLevel::Protected),
            EraserState::Unprotected => self.level == Some(ProtectionLevel::Unprotected),
            EraserState::Unlocking => self.level == Some(ProtectionLevel::Protected),
            EraserState::Verifying => self.level == Some(ProtectionLevel::Protected),
            EraserState::UnlockFailed => self.level == Some(ProtectionLevel::Protected)
                || self.level == Some(ProtectionLevel::Locked),
            EraserState::Faulted(_) => true,
        }
    }

    /// Whether the instance has ended, in success or in failure.
    pub open spec fn ended(self) -> bool {
        self.state is Unprotected || self.state is UnlockFailed || self.state is Faulted
    }

    /// The core after the driver's reply.
    ///
    /// A reply counts only while an operation is under way. The first
    /// reading makes the level known, unless the level cannot be cleared.
    /// The end of the unlock sequence leads to the reading that verifies it,
    /// and only a reading of no protection makes that a success. Any other
    /// reply to an operation under way is a fault.
    pub open spec fn after_reply(self, family: TargetFamily, reply: ProbeReply) -> EraserCore {
        match self.state {
            EraserState::Uninitialized => match reply {
                ProbeReply::Protection(register) => {
                    let level = level_in(family, register);
                    if level == ProtectionLevel::Locked {
                        EraserCore {
                            state: EraserState::Faulted(EraserError::InvalidProtectionLevel),
                            level: Some(level),
                        }
                    } else {
                        EraserCore { state: EraserState::ProtectionRead, level: Some(level) }
                    }
                },
                _ => EraserCore { state: EraserState::Faulted(fault_in(reply)), level: self.level },
            },
            EraserState::Unlocking => match reply {
                ProbeReply::Done => EraserCore { state: EraserState::Verifying, level: self.level },
                _ => EraserCore { state: EraserState::Faulted(fault_in(reply)), level: self.level },
            },
            EraserState::Verifying => match reply {
                ProbeReply::Protection(register) => {
                    let level = level_in(family, register);
                    if level == ProtectionLevel::Unprotected {
                        EraserCore { state: EraserState::Unprotected, level: Some(level) }
                    } else {
                        EraserCore { state: EraserState::UnlockFailed, level: Some(level) }
                    }
                },
                _ => EraserCore { state: EraserState::Faulted(fault_in(reply)), level: self.level },
            },
            _ => self,
        }
    }

    /// The core after a mass erase was asked for.
    ///
    /// Only an instance that knows the level and has not begun acts on it: an
    /// unprotected device is done at once, a protected one is unlocked. In
    /// every other state the request changes nothing.
    pub open spec fn after_request(self) -> EraserCore {
        match self.state {
            EraserState::ProtectionRead => {
                if self.level == Some(ProtectionLevel::Unprotected) {
                    EraserCore { state: EraserState::Unprotected, level: self.level }
                } else {
                    EraserCore { state: EraserState::Unlocking, level: self.level }
                }
            },
            _ => self,
        }
    }
}

/// Whether the state machine has a transition from one state to another.
pub open spec fn has_edge(from: EraserState, to: EraserState) -> bool {
    match from {
        EraserState::Uninitialized => to is ProtectionRead || to is Faulted,
        EraserState::ProtectionRead => to is Unprotected || to is Unlocking,
        EraserState::Unlocking => to is Verifying || to is Faulted,
        EraserState::Verifying => to is Unprotected || to is UnlockFailed || to is Faulted,
        EraserState::Unprotected => false,
        EraserState::UnlockFailed => false,
        EraserState::Faulted(_) => false,
    }
}

/// Every step keeps the state or follows a transition of the state machine,
/// and keeps state and level fitting together.
pub proof fn lemma_steps_follow_the_machine(
    core: EraserCore,
    family: TargetFamily,
    reply: ProbeReply,
)
    requires
        core.wf(),
    ensures
        core.after_reply(family, reply).wf(),
        core.after_request().wf(),
        core.after_reply(family, reply) == core || has_edge(
            core.state,
            core.after_reply(family, reply).state,
        ),
        core.after_request() == core || has_edge(core.state, core.after_request().state),
{
}

/// An instance that has ended stays as it is, whatever it is told or asked.
pub proof fn lemma_ended_instances_stay(core: EraserCore, family: TargetFamily, reply: ProbeReply)
    requires
        core.ended(),
    ensures
        core.after_reply(family, reply) == core,
        core.after_request() == core,
{
}

/// Asking for a mass erase twice is the same as asking once. On a device
/// that is already unprotected both requests succeed, neither asks for the
/// unlock sequence, and the level read last stays what it was.
pub proof fn lemma_mass_erase_is_idempotent(core: EraserCore)
    requires
        core.wf(),
    ensures
        core.after_request().after_request() == core.after_request(),
        core.after_request().level == core.level,
        (core.state is ProtectionRead || core.state is Unprotected) && core.level == Some(
            ProtectionLevel::Unprotected,
        ) ==> {
            &&& core.after_request().state is Unprotected
            &&& pending(core.after_request().state) == EraserAction::Succeed
            &&& pending(core.after_request().after_request().state) == EraserAction::Succeed
        },
{
}

/// Success is never taken on trust. An instance becomes unprotected only
/// where it already knew the device to be unprotected when the mass erase
/// was asked for, or where the reading that follows the unlock sequence
/// shows no protection. In particular, the end of the unlock sequence alone
/// never makes a success.
pub proof fn lemma_success_needs_a_clear_reading(
    core: EraserCore,
    family: TargetFamily,
    reply: ProbeReply,
)
    requires
        core.wf(),
        !(core.state is Unprotected),
    ensures
        core.after_reply(family, reply).state is Unprotected ==> {
            &&& core.state is Verifying
            &&& reply matches ProbeReply::Protection(register)
            &&& level_in(family, register) == ProtectionLevel::Unprotected
        },
        core.after_request().state is Unprotected ==> {
            &&& core.state is ProtectionRead
            &&& core.level == Some(ProtectionLevel::Unprotected)
        },
        core.state is Unlocking ==> !(core.after_reply(family, reply).state is Unprotected),
{
}

/// A protected device whose unlock sequence ran to its end, and whose
/// protection register then still shows protection, ends in `UnlockFailed`
/// with `InvalidProtectionLevel`.
pub proof fn lemma_unverified_unlock_fails(family: TargetFamily, register: u32)
    requires
        level_in(family, register) != ProtectionLevel::Unprotected,
    ensures
        ({
            let known = EraserCore {
                state: EraserState::ProtectionRead,
                level: Some(ProtectionLevel::Protected),
            };
            let unlocking = known.after_request();
            let verifying = unlocking.after_reply(family, ProbeReply::Done);
            let ended = verifying.after_reply(family, ProbeReply::Protection(register));
            &&& pending(unlocking.state) == EraserAction::Unlock
            &&& pending(verifying.state) == EraserAction::ReadProtection
            &&& ended.state is UnlockFailed
            &&& pending(ended.state) == EraserAction::Fail(EraserError::InvalidProtectionLevel)
        }),
{
}

/// The state that lifts the flash protection of one target of one family.
#[derive(Debug)]
pub struct EraserInstance {
    target: String,
    probe: ProbeDescriptor,
    family: TargetFamily,
    machine: EraserCore,
}

impl EraserInstance {
    /// The identity of the target.
    pub closed spec fn target(&self) -> String {
        self.target
    }

    /// The probe through which the target is reached.
    pub closed spec fn probe(&self) -> ProbeDescriptor {
        self.probe
    }

    /// The family that handles the target.
    pub closed spec fn family(&self) -> TargetFamily {
        self.family
    }

    /// The state and the level read last.
    pub closed spec fn machine(&self) -> EraserCore {
        self.machine
    }

    /// Whether the instance is sound: its family claims its target, and its
    /// state and level fit together. Every instance is.
    pub open spec fn wf(&self) -> bool {
        &&& family_for(self.target()@) == Some(self.family())
        &&& self.machine().wf()
    }

    #[verifier::type_invariant]
    spec fn sound(&self) -> bool {
        self.wf()
    }

    /// Makes the eraser for a target, reached through a probe.
    ///
    /// Fails with `InvalidTarget`, and asks nothing of any probe, where no
    /// supported family claims the target identity. Otherwise the instance
    /// is `Uninitialized`, and its first request to the driver is a reading
    /// of the protection register. The reply to that request, handed to
    /// `report`, completes the construction: it makes the level known, or it
    /// fails the instance with `InvalidProtectionLevel` where the level
    /// cannot be cleared, and with `InvalidTarget`, `SessionError` or
    /// `DebugProbeError` where the driver could not read the register.
    pub fn create(target: String, probe: ProbeDescriptor) -> (made: Result<Self, EraserError>)
        ensures
            match made {
                Ok(eraser) => {
                    &&& family_for(target@) == Some(eraser.family())
                    &&& eraser.target() == target
                    &&& eraser.probe() == probe
                    &&& eraser.machine() == EraserCore::initial()
                    &&& eraser.wf()
                },
                Err(error) => family_for(target@) is None && error == EraserError::InvalidTarget,
            },
    {
        match family_of(target.as_str()) {
            Some(family) => Ok(
                EraserInstance {
                    target,
                    probe,
                    family,
                    machine: EraserCore { state: EraserState::Uninitialized, level: None },
                },
            ),
            None => Err(EraserError::InvalidTarget),
        }
    }

    /// What the instance asks for or reports as it stands.
    pub fn next_action(&self) -> (action: EraserAction)
        ensures
            action == pending(self.machine().state),
    {
        match self.machine.state {
            EraserState::Uninitialized => EraserAction::ReadProtection,
            EraserState::ProtectionRead => EraserAction::Ready,
            EraserState::Unprotected => EraserAction::Succeed,
            EraserState::Unlocking => EraserAction::Unlock,
            EraserState::Verifying => EraserAction::ReadProtection,
            EraserState::UnlockFailed => EraserAction::Fail(EraserError::InvalidProtectionLevel),
            EraserState::Faulted(error) => EraserAction::Fail(error),
        }
    }

    /// Takes the driver's reply to the operation under way and says what
    /// comes next.
    pub fn report(&mut self, reply: ProbeReply) -> (action: EraserAction)
        ensures
            final(self).machine() == old(self).machine().after_reply(old(self).family(), reply),
            action == pending(final(self).machine().state),
            final(self).target() == old(self).target(),
            final(self).probe() == old(self).probe(),
            final(self).family() == old(self).family(),
            final(self).wf(),
    {
        proof {
            use_type_invariant(&*self);
        }
        let level = self.machine.level;
        let fault = match reply {
            ProbeReply::TargetUnknown => EraserError::InvalidTarget,
            ProbeReply::SessionFault => EraserError::SessionError,
            _ => EraserError::DebugProbeError,
        };
        let next = match self.machine.state {
            EraserState::Uninitialized => match reply {
                ProbeReply::Protection(register) => {
                    let read = decode_level(self.family, register);
                    match read {
                        ProtectionLevel::Locked => EraserCore {
                            state: EraserState::Faulted(EraserError::InvalidProtectionLevel),
                            level: Some(read),
                        },
                        _ => EraserCore { state: EraserState::ProtectionRead, level: Some(read) },
                    }
                },
                _ => EraserCore { state: EraserState::Faulted(fault), level },
            },
            EraserState::Unlocking => match reply {
                ProbeReply::Done => EraserCore { state: EraserState::Verifying, level },
                _ => EraserCore { state: EraserState::Faulted(fault), level },
            },
            EraserState::Verifying => match reply {
                ProbeReply::Protection(register) => {
                    let read = decode_level(self.family, register);
                    match read {
                        ProtectionLevel::Unprotected => EraserCore {
                            state: EraserState::Unprotected,
                            level: Some(read),
                        },
                        _ => EraserCore { state: EraserState::UnlockFailed, level: Some(read) },
                    }
                },
                _ => EraserCore { state: EraserState::Faulted(fault), level },
            },
            _ => self.machine,
        };
        self.machine = next;
        self.next_action()
    }

    /// Asks for the mass erase and says what comes next.
    ///
    /// On a device known to be unprotected this succeeds at once and asks
    /// nothing of the driver. On a protected device it asks for the unlock
    /// sequence; the reading that follows decides between success and
    /// `InvalidProtectionLevel`. Asked again, it changes nothing and repeats
    /// what is pending or how the instance ended.
    pub fn mass_erase(&mut self) -> (action: EraserAction)
        ensures
            final(self).machine() == old(self).machine().after_request(),
            action == pending(final(self).machine().state),
            final(self).target() == old(self).target(),
            final(self).probe() == old(self).probe(),
            final(self).family() == old(self).family(),
            final(self).wf(),
    {
        proof {
            use_type_invariant(&*self);
        }
        match self.machine.state {
            EraserState::ProtectionRead => {
                let state = match self.machine.level {
                    Some(ProtectionLevel::Unprotected) => EraserState::Unprotected,
                    _ => EraserState::Unlocking,
                };
                self.machine = EraserCore { state, level: self.machine.level };
            },
            _ => {},
        }
        self.next_action()
    }

    /// The identity of the target.
    pub fn target_name(&self) -> (name: &String)
        ensures
            *name == self.target(),
    {
        &self.target
    }

    /// The probe through which the target is reached.
    pub fn probe_descriptor(&self) -> (probe: &ProbeDescriptor)
        ensures
            *probe == self.probe(),
    {
        &self.probe
    }

    /// The family that handles the target.
    pub fn target_family(&self) -> (family: TargetFamily)
        ensures
            family == self.family(),
    {
        self.family
    }

    /// The state of the instance.
    pub fn state(&self) -> (state: EraserState)
        ensures
            state == self.machine().state,
    {
        self.machine.state
    }

    /// The protection level read last, if any was read.
    pub fn protection_level(&self) -> (level: Option<ProtectionLevel>)
        ensures
            level == self.machine().level,
    {
        self.machine.level
    }
}

} // verus!
