//! The flash workflow: from a request to a programmed and verified device,
//! or to the reason why it is not.
//!
//! The workflow runs its stages in a fixed order, and each stage depends on
//! the one before it:
//!
//! 1. the probe is located and opened, once;
//! 2. the session is established: the probe is detached from whatever it was
//!    attached to, its speed is set, and it attaches to the target under
//!    reset, in this order, because the speed must be fixed before the
//!    attach and an earlier attachment must be cleared first;
//! 3. the image is loaded into a flash plan;
//! 4. the plan is committed to the target's flash;
//! 5. what the workflow holds, probe or session, is released.
//!
//! A stage that fails ends the workflow: no later stage is tried, what is
//! held is released, and the caller receives the failure. The caller carries
//! out each operation that the workflow names and hands the driver's reply
//! back.

use vstd::prelude::*;
use crate::commit::{judge_commit, CommitCause, CommitOptions, CommitReport};
use crate::image::{
    binary_segments, format_tagged, FirmwareImage, FlashPlan, ImageError, ImageFormat, MemoryMap,
    MemoryRegion, SegmentView,
};
use crate::probe::{ProbeDescriptor, ProbeDescriptorView};
use crate::response::{
    FailureCategory, Outcome, ProvisioningResult, STATUS_BAD_REQUEST, STATUS_INTERNAL_ERROR,
    STATUS_OK,
};

verus! {

/// The lowest communication speed, in kHz, at which a session is set up.
pub const MIN_SPEED_KHZ: u32 = 100;

/// The size, in bytes, that a firmware blob must stay under: 32 MiB.
pub const MAX_IMAGE_BYTES: usize = 33_554_432;

/// The fields of a flash request as they are submitted.
#[derive(Debug)]
pub struct FlashForm {
    /// The firmware blob.
    pub blob: Vec<u8>,
    /// The format tag of the blob: `bin`, `hex` or `elf`.
    pub fw_type: String,
    /// The version of the firmware.
    pub fw_ver: u32,
    /// The serial number of the probe.
    pub probe_sn: String,
    /// The communication speed in kHz.
    pub speed_khz: u32,
    /// The USB vendor identifier of the probe.
    pub probe_vid: u16,
    /// The USB product identifier of the probe.
    pub probe_pid: u16,
    /// The identity of the target.
    pub target_name: String,
    /// Whether the flash is programmed without being erased first.
    pub skip_erase: bool,
}

impl FlashForm {
    /// Whether the form keeps the limits that are enforced where requests
    /// come in, before any work is done for them: the blob stays under its
    /// size cap, the firmware version is positive, and the speed is one at
    /// which a session is set up.
    pub open spec fn within_limits(&self) -> bool {
        &&& self.blob@.len() < MAX_IMAGE_BYTES
        &&& self.fw_ver >= 1
        &&& self.speed_khz >= MIN_SPEED_KHZ
    }

    /// Tells whether the form keeps the limits.
    pub fn is_within_limits(&self) -> (kept: bool)
        ensures
            kept == self.within_limits(),
    {
        self.blob.len() < MAX_IMAGE_BYTES && self.fw_ver >= 1 && self.speed_khz >= MIN_SPEED_KHZ
    }
}

/// A flash request: which image goes to which target, through which probe
/// and how.
#[derive(Debug)]
pub struct FlashRequest {
    /// The probe through which the target is reached.
    pub probe: ProbeDescriptor,
    /// The identity of the target.
    pub target: String,
    /// The communication speed in kHz.
    pub speed_khz: u32,
    /// The firmware image.
    pub image: FirmwareImage,
    /// Whether the flash is programmed without being erased first, and bytes
    /// that the image does not write are left as they are.
    pub skip_erase: bool,
}

impl FlashRequest {
    /// Whether the request is the one that a form asks for.
    pub open spec fn asked_by(self, form: FlashForm) -> bool {
        &&& self.probe@ == (ProbeDescriptorView {
            vendor_id: form.probe_vid,
            product_id: form.probe_pid,
            serial_number: Some(form.probe_sn@),
        })
        &&& self.target == form.target_name
        &&& self.speed_khz == form.speed_khz
        &&& format_tagged(form.fw_type@) == Some(self.image.format)
        &&& self.image.bytes == form.blob
        &&& self.image.base_address is None
        &&& self.image.skip == 0
        &&& self.image.version == Some(form.fw_ver)
        &&& self.skip_erase == form.skip_erase
    }
}

/// Why a flash workflow failed.
#[derive(Clone, Copy, PartialEq, Eq, Debug, Structural)]
pub enum FlashFailure {
    /// The declared image format is none of the recognised ones.
    UnsupportedFormat,
    /// The probe was not found, is claimed already, or could not be opened.
    ProbeUnavailable,
    /// The probe could not be detached from its earlier attachment.
    DetachFailed,
    /// The communication speed is below the lowest at which a session is set
    /// up, or the probe did not take it.
    SpeedNegotiationFailed,
    /// The probe could not attach to the target.
    SessionAttachFailed,
    /// The image is malformed or does not fit the target's memory.
    ImageParseError,
    /// Erasing, writing or verifying the flash failed.
    CommitError(CommitCause),
}

impl FlashFailure {
    /// The category under which the failure is surfaced.
    pub open spec fn category_of(self) -> FailureCategory {
        match self {
            FlashFailure::UnsupportedFormat => FailureCategory::UnsupportedFormat,
            FlashFailure::ProbeUnavailable => FailureCategory::ProbeUnavailable,
            FlashFailure::DetachFailed => FailureCategory::DebugProbeError,
            FlashFailure::SpeedNegotiationFailed => FailureCategory::DebugProbeError,
            FlashFailure::SessionAttachFailed => FailureCategory::SessionError,
            FlashFailure::ImageParseError => FailureCategory::ImageParseError,
            FlashFailure::CommitError(_) => FailureCategory::CommitError,
        }
    }

    /// The status that accompanies the failure: the request's fault where
    /// the image is at fault, the service's where probe or session failed,
    /// and a served request where the flashing itself failed.
    pub open spec fn status_of(self) -> u16 {
        match self {
            FlashFailure::UnsupportedFormat => STATUS_BAD_REQUEST,
            FlashFailure::ImageParseError => STATUS_BAD_REQUEST,
            FlashFailure::CommitError(_) => STATUS_OK,
            _ => STATUS_INTERNAL_ERROR,
        }
    }

    /// The message that the caller reads for the failure on a target.
    pub open spec fn message_text(self, target: Seq<char>) -> Seq<char> {
        match self {
            FlashFailure::UnsupportedFormat => "Not a valid Bin/Hex/Elf file"@,
            FlashFailure::ProbeUnavailable => "Failed to open probe"@,
            FlashFailure::DetachFailed => "Failed to detach probe"@,
            FlashFailure::SpeedNegotiationFailed => "Failed to set speed"@,
            FlashFailure::SessionAttachFailed => "Failed to open session: "@ + target,
            FlashFailure::ImageParseError => "Failed to load firmware"@,
            FlashFailure::CommitError(cause) => "Failed to download firmware: "@
                + cause.cause_text(),
        }
    }

    /// The category under which the failure is surfaced.
    pub fn category(self) -> (category: FailureCategory)
        ensures
            category == self.category_of(),
    {
        match self {
            FlashFailure::UnsupportedFormat => FailureCategory::UnsupportedFormat,
            FlashFailure::ProbeUnavailable => FailureCategory::ProbeUnavailable,
            FlashFailure::DetachFailed => FailureCategory::DebugProbeError,
            FlashFailure::SpeedNegotiationFailed => FailureCategory::DebugProbeError,
            FlashFailure::SessionAttachFailed => FailureCategory::SessionError,
            FlashFailure::ImageParseError => FailureCategory::ImageParseError,
            FlashFailure::CommitError(_) => FailureCategory::CommitError,
        }
    }

    /// The status that accompanies the failure.
    pub fn status(self) -> (status: u16)
        ensures
            status == self.status_of(),
    {
        match self {
            FlashFailure::UnsupportedFormat => STATUS_BAD_REQUEST,
            FlashFailure::ImageParseError => STATUS_BAD_REQUEST,
            FlashFailure::CommitError(_) => STATUS_OK,
            _ => STATUS_INTERNAL_ERROR,
        }
    }

    /// The message that the caller reads for the failure on a target.
    pub fn message(self, target: &str) -> (text: String)
        ensures
            text@ == self.message_text(target@),
    {
        match self {
            FlashFailure::UnsupportedFormat => "Not a valid Bin/Hex/Elf file".to_owned(),
            FlashFailure::ProbeUnavailable => "Failed to open probe".to_owned(),
            FlashFailure::DetachFailed => "Failed to detach probe".to_owned(),
            FlashFailure::SpeedNegotiationFailed => "Failed to set speed".to_owned(),
            FlashFailure::SessionAttachFailed => {
                let mut text = "Failed to open session: ".to_owned();
                text.append(target);
                text
            },
            FlashFailure::ImageParseError => "Failed to load firmware".to_owned(),
            FlashFailure::CommitError(cause) => {
                let mut text = "Failed to download firmware: ".to_owned();
                text.append(cause.text());
                text
            },
        }
    }
}

/// How a flash workflow ended.
#[derive(Clone, Copy, PartialEq, Eq, Debug, Structural)]
pub enum FlashVerdict {
    /// The image is in the target's flash, and what was read back matched.
    Flashed,
    /// The workflow failed.
    Failed(FlashFailure),
}

/// The message of a successful flash.
pub open spec fn flashed_text() -> Seq<char> {
    "Firmware donwloaded"@
}

/// Whether a result is the one that the caller receives for a verdict on a
/// target.
pub open spec fn reports(
    result: ProvisioningResult<()>,
    verdict: FlashVerdict,
    target: Seq<char>,
) -> bool {
    &&& result.details is None
    &&& match verdict {
        FlashVerdict::Flashed => {
            &&& result.outcome == Outcome::Success
            &&& result.status == STATUS_OK
            &&& result.message@ == flashed_text()
        },
        FlashVerdict::Failed(failure) => {
            &&& result.outcome == Outcome::Failure(failure.category_of())
            &&& result.status == failure.status_of()
            &&& result.message@ == failure.message_text(target)
        },
    }
}

/// Builds the result that the caller receives for a verdict on a target.
pub fn flash_result(verdict: FlashVerdict, target: &str) -> (result: ProvisioningResult<()>)
    ensures
        reports(result, verdict, target@),
{
    match verdict {
        FlashVerdict::Flashed => ProvisioningResult::success("Firmware donwloaded".to_owned()),
        FlashVerdict::Failed(failure) => ProvisioningResult::failure(
            failure.category(),
            failure.status(),
            failure.message(target),
        ),
    }
}

/// An operation that the flash workflow asks its driver to carry out.
#[derive(Clone, Copy, PartialEq, Eq, Debug, Structural)]
pub enum FlashOperation {
    /// Open the request's probe for exclusive use, in a single attempt.
    OpenProbe,
    /// Detach the probe from whatever it was attached to.
    Detach,
    /// Set the probe's communication speed to this many kHz.
    SetSpeed(u32),
    /// Attach to the request's target under reset. The probe goes into the
    /// attempt: where it succeeds a session is held in the probe's place,
    /// and where it fails nothing is held any more.
    AttachUnderReset,
    /// Stage the writes of the workflow's flash plan.
    StagePlan,
    /// Parse the request's image in this format and stage its writes.
    ParseImage(ImageFormat),
    /// Write what is staged to the target's flash under these options.
    Commit(CommitOptions),
    /// Release the probe.
    ReleaseProbe,
    /// Detach from the target and release the session.
    ReleaseSession,
}

/// What the driver tells the workflow about the operation it ran.
#[derive(Debug)]
pub enum DriverReply {
    /// The operation succeeded.
    Done,
    /// The attach succeeded, and this is the target's memory map.
    Attached(MemoryMap),
    /// The operation failed.
    Failed,
    /// The commit failed for this cause.
    CommitFailed(CommitCause),
}

/// The stages of a flash workflow. Each is named for the operation whose
/// reply the workflow waits for.
#[derive(Clone, Copy, PartialEq, Eq, Debug, Structural)]
pub enum FlashStage {
    /// Locating the probe: the probe is being opened.
    Locating,
    /// Establishing the session, first step: the probe is being detached.
    Detaching,
    /// Establishing the session, second step: the speed is being set.
    SettingSpeed,
    /// Establishing the session, third step: the probe is attaching to the
    /// target under reset.
    Attaching,
    /// Loading the image: its writes are being staged.
    Loading,
    /// Committing the plan: the staged writes are being written and
    /// verified.
    Committing,
    /// The probe is being released after the given verdict.
    ReleasingProbe(FlashVerdict),
    /// The session is being released after the given verdict.
    ReleasingSession(FlashVerdict),
}

/// What a flash workflow does on a reply.
pub enum FlashMove {
    /// It goes to a stage and asks for an operation.
    Continue(FlashStage, FlashOperation),
    /// It is over, with a verdict.
    Finish(FlashVerdict),
}

/// What a workflow holds of the driver's.
#[derive(Clone, Copy, PartialEq, Eq, Debug, Structural)]
pub enum Held {
    Nothing,
    Probe,
    Session,
}

/// What a workflow holds while it waits at a stage. During the attach the
/// probe is in the attempt's hands, not in the workflow's.
pub open spec fn held_at(stage: FlashStage) -> Held {
    match stage {
        FlashStage::Locating => Held::Nothing,
        FlashStage::Detaching => Held::Probe,
        FlashStage::SettingSpeed => Held::Probe,
        FlashStage::Attaching => Held::Nothing,
        FlashStage::Loading => Held::Session,
        FlashStage::Committing => Held::Session,
        FlashStage::ReleasingProbe(_) => Held::Nothing,
        FlashStage::ReleasingSession(_) => Held::Nothing,
    }
}

/// Whether a reply reports the success of the operation for which a stage
/// waits: `Attached` for the attach, `Done` for every other operation.
pub open spec fn succeeds(stage: FlashStage, reply: DriverReply) -> bool {
    if stage is Attaching {
        reply is Attached
    } else {
        reply is Done
    }
}

/// What the driver's reply to a commit reports.
pub open spec fn commit_report(reply: DriverReply) -> CommitReport {
    match reply {
        DriverReply::Done => CommitReport::Committed,
        DriverReply::CommitFailed(cause) => CommitReport::Failed(cause),
        _ => CommitReport::Failed(CommitCause::Other),
    }
}

/// The failure that a reply which does not report success means at a stage.
pub open spec fn failure_at(stage: FlashStage, reply: DriverReply) -> FlashFailure {
    match stage {
        FlashStage::Locating => FlashFailure::ProbeUnavailable,
        FlashStage::Detaching => FlashFailure::DetachFailed,
        FlashStage::SettingSpeed => FlashFailure::SpeedNegotiationFailed,
        FlashStage::Attaching => FlashFailure::SessionAttachFailed,
        FlashStage::Loading => FlashFailure::ImageParseError,
        _ => match commit_report(reply) {
            CommitReport::Failed(cause) => FlashFailure::CommitError(cause),
            CommitReport::Committed => FlashFailure::CommitError(CommitCause::Other),
        },
    }
}

/// The move by which a workflow ends with a verdict. Whatever the workflow
/// holds is let go first; a workflow that holds nothing is over at once.
pub open spec fn release_move(held: Held, verdict: FlashVerdict) -> FlashMove {
    match held {
        Held::Nothing => FlashMove::Finish(verdict),
        Held::Probe => FlashMove::Continue(
            FlashStage::ReleasingProbe(verdict),
            FlashOperation::ReleaseProbe,
        ),
        Held::Session => FlashMove::Continue(
            FlashStage::ReleasingSession(verdict),
            FlashOperation::ReleaseSession,
        ),
    }
}

/// The writes that a request's raw binary comes to on a target with the
/// given memory regions.
pub open spec fn planned(request: FlashRequest, regions: Seq<MemoryRegion>) -> Result<
    Seq<SegmentView>,
    ImageError,
> {
    binary_segments(
        request.image.bytes@,
        request.image.base_address,
        request.image.skip,
        regions,
    )
}

/// What the workflow does once the session is established: a raw binary is
/// planned against the target's memory map and staged, or turned down; an
/// image in another format is handed to the driver's parser.
pub open spec fn load_move(request: FlashRequest, regions: Seq<MemoryRegion>) -> FlashMove {
    match request.image.format {
        ImageFormat::Bin => {
            if planned(request, regions) is Ok {
                FlashMove::Continue(FlashStage::Loading, FlashOperation::StagePlan)
            } else {
                release_move(Held::Session, FlashVerdict::Failed(FlashFailure::ImageParseError))
            }
        },
        format => FlashMove::Continue(FlashStage::Loading, FlashOperation::ParseImage(format)),
    }
}

/// What a workflow does when the operation for which it waited succeeded: it
/// goes on to the next stage, and after the commit to its release.
pub open spec fn success_move(
    stage: FlashStage,
    reply: DriverReply,
    request: FlashRequest,
) -> FlashMove {
    match stage {
        FlashStage::Locating => FlashMove::Continue(FlashStage::Detaching, FlashOperation::Detach),
        FlashStage::Detaching => FlashMove::Continue(
            FlashStage::SettingSpeed,
            FlashOperation::SetSpeed(request.speed_khz),
        ),
        FlashStage::SettingSpeed => FlashMove::Continue(
            FlashStage::Attaching,
            FlashOperation::AttachUnderReset,
        ),
        FlashStage::Attaching => match reply {
            DriverReply::Attached(map) => load_move(request, map.regions@),
            _ => FlashMove::Finish(FlashVerdict::Failed(FlashFailure::SessionAttachFailed)),
        },
        FlashStage::Loading => FlashMove::Continue(
            FlashStage::Committing,
            FlashOperation::Commit(CommitOptions::for_request(request.skip_erase)),
        ),
        _ => release_move(Held::Session, FlashVerdict::Flashed),
    }
}

/// What a workflow for a request does, at a stage, on the driver's reply.
///
/// Each stage goes on only on the one reply that reports its success; every
/// other reply is the stage's failure. A failure ends the workflow, at once
/// where nothing is held, and after the release of what is held otherwise.
/// The reply to a release always ends the workflow.
pub open spec fn flash_move(stage: FlashStage, reply: DriverReply, request: FlashRequest) -> FlashMove {
    match stage {
        FlashStage::ReleasingProbe(verdict) => FlashMove::Finish(verdict),
        FlashStage::ReleasingSession(verdict) => FlashMove::Finish(verdict),
        _ => {
            if succeeds(stage, reply) {
                success_move(stage, reply, request)
            } else {
                release_move(held_at(stage), FlashVerdict::Failed(failure_at(stage, reply)))
            }
        },
    }
}

/// A flash workflow between two operations.
#[derive(Debug)]
pub struct FlashWorkflow {
    request: FlashRequest,
    stage: FlashStage,
    plan: Option<FlashPlan>,
}

/// What the flash workflow does next.
#[derive(Debug)]
pub enum FlashStep {
    /// The driver carries out the operation and hands its reply to the
    /// workflow.
    Continue(FlashWorkflow, FlashOperation),
    /// The workflow is over and this is its result.
    Finished(ProvisioningResult<()>),
}

impl FlashWorkflow {
    /// The request that the workflow serves.
    pub closed spec fn request(&self) -> FlashRequest {
        self.request
    }

    /// The stage at which the workflow stands.
    pub closed spec fn stage(&self) -> FlashStage {
        self.stage
    }

    /// The flash plan that the workflow made of a raw binary, once it has.
    pub closed spec fn plan(&self) -> Option<FlashPlan> {
        self.plan
    }

    /// Whether the workflow is sound: its speed is one at which a session is
    /// set up, and while a raw binary is staged or committed it holds the
    /// plan of that binary. Every workflow is.
    pub open spec fn wf(&self) -> bool {
        &&& self.request().speed_khz >= MIN_SPEED_KHZ
        &&& (self.stage() is Loading || self.stage() is Committing) && self.request().image.format
            is Bin ==> self.plan() is Some
    }

    #[verifier::type_invariant]
    spec fn sound(&self) -> bool {
        self.wf()
    }

    /// Starts the workflow for a request.
    ///
    /// A request whose speed is below the lowest at which a session is set
    /// up is turned down with `SpeedNegotiationFailed`, and nothing is asked
    /// of any probe. For every other request the first operation is the
    /// opening of the probe.
    pub fn start(request: FlashRequest) -> (step: FlashStep)
        ensures
            match step {
                FlashStep::Continue(workflow, operation) => {
                    &&& request.speed_khz >= MIN_SPEED_KHZ
                    &&& workflow.request() == request
                    &&& workflow.stage() == FlashStage::Locating
                    &&& workflow.plan() is None
                    &&& operation == FlashOperation::OpenProbe
                },
                FlashStep::Finished(result) => {
                    &&& request.speed_khz < MIN_SPEED_KHZ
                    &&& reports(
                        result,
                        FlashVerdict::Failed(FlashFailure::SpeedNegotiationFailed),
                        request.target@,
                    )
                },
            },
    {
        if request.speed_khz < MIN_SPEED_KHZ {
            finish(request, FlashVerdict::Failed(FlashFailure::SpeedNegotiationFailed))
        } else {
            proceed(request, None, FlashStage::Locating, FlashOperation::OpenProbe)
        }
    }

    /// Accepts a form, and starts the workflow for the request that it asks
    /// for.
    ///
    /// Where the form's format tag is none of the recognised ones, the
    /// workflow is over at once with `UnsupportedFormat`: nothing was asked
    /// of any probe and no session was established.
    pub fn submit(form: FlashForm) -> (step: FlashStep)
        ensures
            match step {
                FlashStep::Continue(workflow, operation) => {
                    &&& form.speed_khz >= MIN_SPEED_KHZ
                    &&& workflow.request().asked_by(form)
                    &&& workflow.stage() == FlashStage::Locating
                    &&& workflow.plan() is None
                    &&& operation == FlashOperation::OpenProbe
                },
                FlashStep::Finished(result) => {
                    if format_tagged(form.fw_type@) is None {
                        reports(
                            result,
                            FlashVerdict::Failed(FlashFailure::UnsupportedFormat),
                            form.target_name@,
                        )
                    } else {
                        &&& form.speed_khz < MIN_SPEED_KHZ
                        &&& reports(
                            result,
                            FlashVerdict::Failed(FlashFailure::SpeedNegotiationFailed),
                            form.target_name@,
                        )
                    }
                },
            },
    {
        match FirmwareImage::new(form.fw_type.as_str(), form.blob, Some(form.fw_ver)) {
            Ok(image) => FlashWorkflow::start(
                FlashRequest {
                    probe: ProbeDescriptor::new(
                        form.probe_vid,
                        form.probe_pid,
                        Some(form.probe_sn),
                    ),
                    target: form.target_name,
                    speed_khz: form.speed_khz,
                    image,
                    skip_erase: form.skip_erase,
                },
            ),
            Err(_) => FlashStep::Finished(
                flash_result(
                    FlashVerdict::Failed(FlashFailure::UnsupportedFormat),
                    form.target_name.as_str(),
                ),
            ),
        }
    }

    /// Takes the driver's reply to the operation that the workflow waited
    /// for, and says what comes next.
    ///
    /// The workflow moves as `flash_move` says. Where a raw binary is to be
    /// staged, the workflow holds the plan of that binary against the memory
    /// map that came with the reply.
    pub fn advance(self, reply: DriverReply) -> (step: FlashStep)
        ensures
            match step {
                FlashStep::Continue(workflow, operation) => {
                    &&& flash_move(self.stage(), reply, self.request()) == FlashMove::Continue(
                        workflow.stage(),
                        operation,
                    )
                    &&& workflow.request() == self.request()
                    &&& operation == FlashOperation::StagePlan ==> ({
                        &&& reply matches DriverReply::Attached(map)
                        &&& workflow.plan() matches Some(plan)
                        &&& planned(self.request(), map.regions@) == Ok::<
                            Seq<SegmentView>,
                            ImageError,
                        >(plan@)
                    })
                    &&& operation != FlashOperation::StagePlan ==> workflow.plan() == self.plan()
                },
                FlashStep::Finished(result) => {
                    &&& flash_move(self.stage(), reply, self.request()) matches FlashMove::Finish(
                        verdict,
                    )
                    &&& reports(result, verdict, self.request().target@)
                },
            },
    {
        proof {
            use_type_invariant(&self);
        }
        let FlashWorkflow { request, stage, plan } = self;
        match stage {
            FlashStage::Locating => match reply {
                DriverReply::Done => proceed(
                    request,
                    plan,
                    FlashStage::Detaching,
                    FlashOperation::Detach,
                ),
                _ => finish(request, FlashVerdict::Failed(FlashFailure::ProbeUnavailable)),
            },
            FlashStage::Detaching => match reply {
                DriverReply::Done => {
                    let speed: u32 = request.speed_khz;
                    proceed(
                        request,
                        plan,
                        FlashStage::SettingSpeed,
                        FlashOperation::SetSpeed(speed),
                    )
                },
                _ => proceed(
                    request,
                    plan,
                    FlashStage::ReleasingProbe(FlashVerdict::Failed(FlashFailure::DetachFailed)),
                    FlashOperation::ReleaseProbe,
                ),
            },
            FlashStage::SettingSpeed => match reply {
                DriverReply::Done => proceed(
                    request,
                    plan,
                    FlashStage::Attaching,
                    FlashOperation::AttachUnderReset,
                ),
                _ => proceed(
                    request,
                    plan,
                    FlashStage::ReleasingProbe(
                        FlashVerdict::Failed(FlashFailure::SpeedNegotiationFailed),
                    ),
                    FlashOperation::ReleaseProbe,
                ),
            },
            FlashStage::Attaching => match reply {
                DriverReply::Attached(map) => match request.image.format {
                    ImageFormat::Bin => {
                        let made = FlashPlan::from_binary(
                            &request.image.bytes,
                            request.image.base_address,
                            request.image.skip,
                            &map,
                        );
                        match made {
                            Ok(made) => proceed(
                                request,
                                Some(made),
                                FlashStage::Loading,
                                FlashOperation::StagePlan,
                            ),
                            Err(_) => proceed(
                                request,
                                plan,
                                FlashStage::ReleasingSession(
                                    FlashVerdict::Failed(FlashFailure::ImageParseError),
                                ),
                                FlashOperation::ReleaseSession,
                            ),
                        }
                    },
                    format => proceed(
                        request,
                        plan,
                        FlashStage::Loading,
                        FlashOperation::ParseImage(format),
                    ),
                },
                _ => finish(request, FlashVerdict::Failed(FlashFailure::SessionAttachFailed)),
            },
            FlashStage::Loading => match reply {
                DriverReply::Done => {
                    let options = CommitOptions::new(request.skip_erase);
                    proceed(
                        request,
                        plan,
                        FlashStage::Committing,
                        FlashOperation::Commit(options),
                    )
                },
                _ => proceed(
                    request,
                    plan,
                    FlashStage::ReleasingSession(
                        FlashVerdict::Failed(FlashFailure::ImageParseError),
                    ),
                    FlashOperation::ReleaseSession,
                ),
            },
            FlashStage::Committing => {
                let report = match reply {
                    DriverReply::Done => CommitReport::Committed,
                    DriverReply::CommitFailed(cause) => CommitReport::Failed(cause),
                    _ => CommitReport::Failed(CommitCause::Other),
                };
                let verdict = match judge_commit(report) {
                    Ok(_) => FlashVerdict::Flashed,
                    Err(error) => FlashVerdict::Failed(FlashFailure::CommitError(error.cause)),
                };
                proceed(
                    request,
                    plan,
                    FlashStage::ReleasingSession(verdict),
                    FlashOperation::ReleaseSession,
                )
            },
            FlashStage::ReleasingProbe(verdict) => finish(request, verdict),
            FlashStage::ReleasingSession(verdict) => finish(request, verdict),
        }
    }

    /// The request that the workflow serves: it names the probe, the target
    /// and the image.
    pub fn served(&self) -> (request: &FlashRequest)
        ensures
            *request == self.request(),
    {
        &self.request
    }

    /// The flash plan that the workflow made of a raw binary, once it has.
    pub fn staged(&self) -> (plan: &Option<FlashPlan>)
        ensures
            *plan == self.plan(),
    {
        &self.plan
    }

    /// The stage at which the workflow stands.
    pub fn at_stage(&self) -> (stage: FlashStage)
        ensures
            stage == self.stage(),
    {
        self.stage
    }
}

/// Goes to a stage and asks for an operation.
fn proceed(
    request: FlashRequest,
    plan: Option<FlashPlan>,
    stage: FlashStage,
    operation: FlashOperation,
) -> (step: FlashStep)
    requires
        request.speed_khz >= MIN_SPEED_KHZ,
        (stage is Loading || stage is Committing) && request.image.format is Bin ==> plan is Some,
    ensures
        match step {
            FlashStep::Continue(workflow, asked) => workflow.request() == request
                && workflow.plan() == plan && workflow.stage() == stage && asked == operation,
            FlashStep::Finished(_) => false,
        },
{
    FlashStep::Continue(FlashWorkflow { request, stage, plan }, operation)
}

/// Ends a workflow with a verdict.
fn finish(request: FlashRequest, verdict: FlashVerdict) -> (step: FlashStep)
    ensures
        match step {
            FlashStep::Continue(_, _) => false,
            FlashStep::Finished(result) => reports(result, verdict, request.target@),
        },
{
    FlashStep::Finished(flash_result(verdict, request.target.as_str()))
}

/// What a run of the workflow comes to: the operations asked for, in order;
/// how many probes were opened and how many sessions were established; and
/// the verdict, once the workflow is over.
pub struct FlashRun {
    pub operations: Seq<FlashOperation>,
    pub probes: nat,
    pub sessions: nat,
    pub verdict: Option<FlashVerdict>,
}

/// The run of a workflow that stands at a stage and is handed replies one
/// after the other. Replies that come after the workflow is over are not
/// taken.
pub open spec fn run_from(
    stage: FlashStage,
    request: FlashRequest,
    replies: Seq<DriverReply>,
) -> FlashRun
    decreases replies.len(),
{
    if replies.len() == 0 {
        FlashRun { operations: Seq::empty(), probes: 0, sessions: 0, verdict: None }
    } else {
        let probe: nat = if stage is Locating && replies[0] is Done {
            1
        } else {
            0
        };
        let session: nat = if stage is Attaching && replies[0] is Attached {
            1
        } else {
            0
        };
        match flash_move(stage, replies[0], request) {
            FlashMove::Finish(verdict) => FlashRun {
                operations: Seq::empty(),
                probes: probe,
                sessions: session,
                verdict: Some(verdict),
            },
            FlashMove::Continue(next, operation) => {
                let rest = run_from(next, request, replies.drop_first());
                FlashRun {
                    operations: seq![operation] + rest.operations,
                    probes: probe + rest.probes,
                    sessions: session + rest.sessions,
                    verdict: rest.verdict,
                }
            },
        }
    }
}

/// The run of a workflow for a request that was not turned down at the
/// start: it opens the probe, and goes on as the replies say.
pub open spec fn run(request: FlashRequest, replies: Seq<DriverReply>) -> FlashRun {
    let rest = run_from(FlashStage::Locating, request, replies);
    FlashRun {
        operations: seq![FlashOperation::OpenProbe] + rest.operations,
        probes: rest.probes,
        sessions: rest.sessions,
        verdict: rest.verdict,
    }
}

/// How often an operation is asked for in a run.
pub open spec fn count_of(operations: Seq<FlashOperation>, wanted: FlashOperation) -> nat
    decreases operations.len(),
{
    if operations.len() == 0 {
        0
    } else {
        let first: nat = if operations[0] == wanted {
            1
        } else {
            0
        };
        first + count_of(operations.drop_first(), wanted)
    }
}

/// The place of an operation in the order of the stages.
pub open spec fn place(operation: FlashOperation) -> int {
    match operation {
        FlashOperation::OpenProbe => 0,
        FlashOperation::Detach => 1,
        FlashOperation::SetSpeed(_) => 2,
        FlashOperation::AttachUnderReset => 3,
        FlashOperation::StagePlan => 4,
        FlashOperation::ParseImage(_) => 4,
        FlashOperation::Commit(_) => 5,
        FlashOperation::ReleaseProbe => 6,
        FlashOperation::ReleaseSession => 6,
    }
}

/// The place of the operation for whose reply a stage waits.
pub open spec fn stage_place(stage: FlashStage) -> int {
    match stage {
        FlashStage::Locating => 0,
        FlashStage::Detaching => 1,
        FlashStage::SettingSpeed => 2,
        FlashStage::Attaching => 3,
        FlashStage::Loading => 4,
        FlashStage::Committing => 5,
        FlashStage::ReleasingProbe(_) => 6,
        FlashStage::ReleasingSession(_) => 6,
    }
}

/// Whether operations come in the order of the stages, none of them twice.
pub open spec fn in_stage_order(operations: Seq<FlashOperation>) -> bool {
    forall|i: int, j: int|
        0 <= i < j < operations.len() ==> place(#[trigger] operations[i]) < place(
            #[trigger] operations[j],
        )
}

/// The operations of a run that succeeds, for a request.
pub open spec fn full_run(request: FlashRequest) -> Seq<FlashOperation> {
    seq![
        FlashOperation::OpenProbe,
        FlashOperation::Detach,
        FlashOperation::SetSpeed(request.speed_khz),
        FlashOperation::AttachUnderReset,
        match request.image.format {
            ImageFormat::Bin => FlashOperation::StagePlan,
            format => FlashOperation::ParseImage(format),
        },
        FlashOperation::Commit(CommitOptions::for_request(request.skip_erase)),
        FlashOperation::ReleaseSession,
    ]
}

proof fn lemma_count_after(
    first: FlashOperation,
    rest: Seq<FlashOperation>,
    wanted: FlashOperation,
)
    ensures
        count_of(seq![first] + rest, wanted) == count_of(rest, wanted) + (if first == wanted {
            1nat
        } else {
            0nat
        }),
{
    assert((seq![first] + rest).drop_first() =~= rest);
}

proof fn lemma_run_from(stage: FlashStage, request: FlashRequest, replies: Seq<DriverReply>)
    ensures
        ({
            let run = run_from(stage, request, replies);
            let held_probe: nat = if held_at(stage) is Probe {
                1
            } else {
                0
            };
            let held_session: nat = if held_at(stage) is Session {
                1
            } else {
                0
            };
            let probes_let_go = count_of(run.operations, FlashOperation::ReleaseProbe) + count_of(
                run.operations,
                FlashOperation::AttachUnderReset,
            );
            let sessions_let_go = count_of(run.operations, FlashOperation::ReleaseSession);
            &&& in_stage_order(run.operations)
            &&& forall|i: int|
                0 <= i < run.operations.len() ==> stage_place(stage) < place(
                    #[trigger] run.operations[i],
                )
            &&& run.probes <= (if stage is Locating {
                1nat
            } else {
                0nat
            })
            &&& run.sessions <= (if stage_place(stage) <= 3 {
                1nat
            } else {
                0nat
            })
            &&& probes_let_go <= run.probes + held_probe
            &&& sessions_let_go <= run.sessions + held_session
            &&& run.verdict is Some ==> probes_let_go == run.probes + held_probe
            &&& run.verdict is Some ==> sessions_let_go == run.sessions + held_session
            &&& run.verdict == Some(FlashVerdict::Flashed) ==> run.operations
                =~= full_run(request).skip(stage_place(stage) + 1)
            &&& forall|i: int|
                0 <= i < run.operations.len() && (#[trigger] run.operations[i]) is Commit
                    ==> run.operations[i] == FlashOperation::Commit(
                    CommitOptions::for_request(request.skip_erase),
                )
            &&& forall|i: int|
                0 <= i < run.operations.len() && (#[trigger] run.operations[i]) is SetSpeed
                    ==> run.operations[i] == FlashOperation::SetSpeed(request.speed_khz)
        }),
    decreases replies.len(),
{
    if replies.len() > 0 {
        match flash_move(stage, replies[0], request) {
            FlashMove::Finish(_) => {},
            FlashMove::Continue(next, operation) => {
                let rest = run_from(next, request, replies.drop_first());
                lemma_run_from(next, request, replies.drop_first());
                lemma_count_after(operation, rest.operations, FlashOperation::ReleaseProbe);
                lemma_count_after(operation, rest.operations, FlashOperation::AttachUnderReset);
                lemma_count_after(operation, rest.operations, FlashOperation::ReleaseSession);
                assert(place(operation) == stage_place(next));
                assert(stage_place(stage) < stage_place(next));
                let operations = seq![operation] + rest.operations;
                assert forall|i: int, j: int| 0 <= i < j < operations.len() implies place(
                    #[trigger] operations[i],
                ) < place(#[trigger] operations[j]) by {
                    assert(operations[j] == rest.operations[j - 1]);
                    if i > 0 {
                        assert(operations[i] == rest.operations[i - 1]);
                    }
                }
                assert forall|i: int| 0 <= i < operations.len() implies stage_place(stage) < place(
                    #[trigger] operations[i],
                ) by {
                    if i > 0 {
                        assert(operations[i] == rest.operations[i - 1]);
                    }
                }
                assert forall|i: int|
                    0 <= i < operations.len() && (#[trigger] operations[i]) is Commit implies operations[i]
                    == FlashOperation::Commit(CommitOptions::for_request(request.skip_erase)) by {
                    if i > 0 {
                        assert(operations[i] == rest.operations[i - 1]);
                    }
                }
                assert forall|i: int|
                    0 <= i < operations.len() && (#[trigger] operations[i]) is SetSpeed implies operations[i]
                    == FlashOperation::SetSpeed(request.speed_khz) by {
                    if i > 0 {
                        assert(operations[i] == rest.operations[i - 1]);
                    }
                }
            },
        }
    }
}

/// The stages of a run come in their fixed order and none is gone through
/// twice: the probe is opened in a single attempt; within the setting up of
/// the session the detach comes before the speed and the speed before the
/// attach; and a release, where there is one, is the last operation of all.
pub proof fn lemma_stages_run_in_order(request: FlashRequest, replies: Seq<DriverReply>)
    ensures
        in_stage_order(run(request, replies).operations),
        count_of(run(request, replies).operations, FlashOperation::OpenProbe) == 1,
        forall|i: int|
            0 <= i < run(request, replies).operations.len() && ((
            #[trigger] run(request, replies).operations[i]) is ReleaseProbe || run(
                request,
                replies,
            ).operations[i] is ReleaseSession) ==> i == run(request, replies).operations.len() - 1,
{
    let rest = run_from(FlashStage::Locating, request, replies);
    let operations = run(request, replies).operations;
    lemma_run_from(FlashStage::Locating, request, replies);
    lemma_count_after(FlashOperation::OpenProbe, rest.operations, FlashOperation::OpenProbe);
    assert forall|i: int, j: int| 0 <= i < j < operations.len() implies place(
        #[trigger] operations[i],
    ) < place(#[trigger] operations[j]) by {
        assert(operations[j] == rest.operations[j - 1]);
        if i > 0 {
            assert(operations[i] == rest.operations[i - 1]);
        }
    }
    lemma_absent_below(rest.operations, FlashOperation::OpenProbe, 0);
    assert forall|i: int|
        0 <= i < operations.len() && ((#[trigger] operations[i]) is ReleaseProbe || operations[i]
            is ReleaseSession) implies i == operations.len() - 1 by {
        if i < operations.len() - 1 {
            assert(place(operations[i]) < place(operations[operations.len() - 1]));
        }
    }
}

proof fn lemma_absent_below(operations: Seq<FlashOperation>, wanted: FlashOperation, floor: int)
    requires
        place(wanted) <= floor,
        forall|i: int| 0 <= i < operations.len() ==> floor < place(#[trigger] operations[i]),
    ensures
        count_of(operations, wanted) == 0,
    decreases operations.len(),
{
    if operations.len() > 0 {
        assert(floor < place(operations[0]));
        assert forall|i: int| 0 <= i < operations.drop_first().len() implies floor < place(
            #[trigger] operations.drop_first()[i],
        ) by {
            assert(operations.drop_first()[i] == operations[i + 1]);
        }
        lemma_absent_below(operations.drop_first(), wanted, floor);
    }
}

/// No step drops what is held, and no step releases what is not held.
///
/// A workflow is over only from a stage at which it holds nothing. A stage
/// at which it holds a probe or a session is left only for a stage at which
/// it still holds it, for its release or, for the probe, for the attach that
/// takes it. And a release is asked for only of what is held, or of the
/// session that the reply has just established.
pub proof fn lemma_steps_keep_what_is_held(
    stage: FlashStage,
    reply: DriverReply,
    request: FlashRequest,
)
    ensures
        match flash_move(stage, reply, request) {
            FlashMove::Finish(_) => held_at(stage) is Nothing,
            FlashMove::Continue(next, operation) => {
                &&& held_at(stage) is Session ==> held_at(next) is Session || (next
                    is ReleasingSession && operation == FlashOperation::ReleaseSession)
                &&& held_at(stage) is Probe ==> held_at(next) is Probe || (next is ReleasingProbe
                    && operation == FlashOperation::ReleaseProbe) || (next is Attaching
                    && operation == FlashOperation::AttachUnderReset)
                &&& operation == FlashOperation::ReleaseSession ==> next is ReleasingSession && (
                held_at(stage) is Session || (stage is Attaching && reply is Attached))
                &&& operation == FlashOperation::ReleaseProbe ==> next is ReleasingProbe
                    && held_at(stage) is Probe
                &&& held_at(next) is Session ==> held_at(stage) is Session || (stage is Attaching
                    && reply is Attached)
                &&& held_at(next) is Probe ==> held_at(stage) is Probe || (stage is Locating
                    && reply is Done)
            },
        },
{
}

/// A session is released exactly once, and so is a probe.
///
/// In every run at most one probe is opened and at most one session is
/// established, and nothing is released that was not acquired. When the
/// workflow is over, however it went, a session that was established has
/// been released exactly once, and a probe that was opened has either gone
/// into the attach or been released, exactly once.
pub proof fn lemma_what_is_held_is_released_once(request: FlashRequest, replies: Seq<DriverReply>)
    ensures
        ({
            let run = run(request, replies);
            let probes_let_go = count_of(run.operations, FlashOperation::ReleaseProbe) + count_of(
                run.operations,
                FlashOperation::AttachUnderReset,
            );
            let sessions_let_go = count_of(run.operations, FlashOperation::ReleaseSession);
            &&& run.probes <= 1
            &&& run.sessions <= 1
            &&& probes_let_go <= run.probes
            &&& sessions_let_go <= run.sessions
            &&& run.verdict is Some ==> probes_let_go == run.probes
            &&& run.verdict is Some ==> sessions_let_go == run.sessions
        }),
{
    let rest = run_from(FlashStage::Locating, request, replies);
    lemma_run_from(FlashStage::Locating, request, replies);
    lemma_count_after(FlashOperation::OpenProbe, rest.operations, FlashOperation::ReleaseProbe);
    lemma_count_after(FlashOperation::OpenProbe, rest.operations, FlashOperation::AttachUnderReset);
    lemma_count_after(FlashOperation::OpenProbe, rest.operations, FlashOperation::ReleaseSession);
}

/// A run succeeds only by going through every stage: the operations of a
/// run whose verdict is `Flashed` are those of `full_run`, so the image was
/// staged, the commit ran under the request's options, and the session was
/// released.
pub proof fn lemma_success_takes_every_stage(request: FlashRequest, replies: Seq<DriverReply>)
    requires
        run(request, replies).verdict == Some(FlashVerdict::Flashed),
    ensures
        run(request, replies).operations == full_run(request),
{
    lemma_run_from(FlashStage::Locating, request, replies);
    assert(run(request, replies).operations =~= full_run(request));
}

/// The speed that a run sets is the request's, and so it is never below the
/// lowest speed at which a session is set up.
pub proof fn lemma_speed_is_the_requests(
    request: FlashRequest,
    replies: Seq<DriverReply>,
    at: int,
)
    requires
        request.speed_khz >= MIN_SPEED_KHZ,
        0 <= at < run(request, replies).operations.len(),
        run(request, replies).operations[at] is SetSpeed,
    ensures
        run(request, replies).operations[at] == FlashOperation::SetSpeed(request.speed_khz),
        run(request, replies).operations[at]->SetSpeed_0 >= MIN_SPEED_KHZ,
{
    let rest = run_from(FlashStage::Locating, request, replies);
    lemma_run_from(FlashStage::Locating, request, replies);
    assert(run(request, replies).operations[at] == rest.operations[at - 1]);
}

/// Every commit of a run is asked for under the request's options: it is
/// always verified, and where the request skips the erase, bytes that the
/// plan does not write are to be preserved.
pub proof fn lemma_commit_runs_under_request_options(
    request: FlashRequest,
    replies: Seq<DriverReply>,
    at: int,
)
    requires
        0 <= at < run(request, replies).operations.len(),
        run(request, replies).operations[at] is Commit,
    ensures
        run(request, replies).operations[at] matches FlashOperation::Commit(options) && options
            == CommitOptions::for_request(request.skip_erase) && options.verify && (
        request.skip_erase ==> options.skip_erase && options.preserve_unwritten),
{
    let rest = run_from(FlashStage::Locating, request, replies);
    lemma_run_from(FlashStage::Locating, request, replies);
    assert(run(request, replies).operations[at] == rest.operations[at - 1]);
}

/// Only a raw binary is placed by the request's base address and skip. For
/// an image in another format the workflow moves the same way whatever
/// they are, and leaves the addresses to the image.
pub proof fn lemma_only_binaries_use_the_base_address(
    stage: FlashStage,
    reply: DriverReply,
    request: FlashRequest,
    base_address: Option<u64>,
    skip: u32,
)
    requires
        !(request.image.format is Bin),
    ensures
        flash_move(
            stage,
            reply,
            FlashRequest {
                image: FirmwareImage { base_address, skip, ..request.image },
                ..request
            },
        ) == flash_move(stage, reply, request),
{
}

/// A commit succeeds only on the driver's word: the workflow goes on to a
/// verdict of `Flashed` only from the commit, and only on the reply `Done`.
/// A mismatch on reading back, like every other reply, makes the verdict a
/// `CommitError`.
pub proof fn lemma_commit_failures_surface(
    stage: FlashStage,
    reply: DriverReply,
    request: FlashRequest,
)
    ensures
        flash_move(stage, reply, request) == FlashMove::Continue(
            FlashStage::ReleasingSession(FlashVerdict::Flashed),
            FlashOperation::ReleaseSession,
        ) <==> stage is Committing && reply is Done,
        stage is Committing && !(reply is Done) ==> exists|cause: CommitCause|
            flash_move(stage, reply, request) == FlashMove::Continue(
                FlashStage::ReleasingSession(
                    FlashVerdict::Failed(FlashFailure::CommitError(cause)),
                ),
                FlashOperation::ReleaseSession,
            ),
        stage is Committing && reply == DriverReply::CommitFailed(CommitCause::VerifyMismatch)
            ==> flash_move(stage, reply, request) == FlashMove::Continue(
            FlashStage::ReleasingSession(
                FlashVerdict::Failed(FlashFailure::CommitError(CommitCause::VerifyMismatch)),
            ),
            FlashOperation::ReleaseSession,
        ),
{
    if stage is Committing && !(reply is Done) {
        let cause = match reply {
            DriverReply::CommitFailed(cause) => cause,
            _ => CommitCause::Other,
        };
        assert(flash_move(stage, reply, request) == FlashMove::Continue(
            FlashStage::ReleasingSession(FlashVerdict::Failed(FlashFailure::CommitError(cause))),
            FlashOperation::ReleaseSession,
        ));
    }
}

} // verus!
