//! Orchestration of firmware provisioning over hardware debug probes.
//!
//! An operator hands in a firmware image, the identity of a target and the
//! description of a debug probe. The service opens the probe, establishes a
//! debug session with the target, programs the image and verifies it; or,
//! on request, it lifts the target's flash protection first.
//!
//! The crate decides; it performs no input or output. Each workflow is a
//! state machine that names the next operation for a probe driver and takes
//! the driver's reply, so that every decision is stated and proved here and
//! the driver only carries operations out.
//!
//! - [`flash`] is the flash workflow, from a request to a programmed device.
//! - [`erase`] is the erase workflow, and [`eraser`] the state machine that
//!   lifts the flash protection of one target.
//! - [`target`] tells which family of silicon a target identity names.
//! - [`image`] holds firmware images, memory maps and flash plans.
//! - [`commit`] holds the options and the failures of a commit to flash.
//! - [`probe`] describes probes and lists the probes of a scan.
//! - [`response`] is the result that every workflow hands to its caller.
//! - [`text`] compares texts.

use vstd::prelude::*;

pub mod commit;
pub mod erase;
pub mod eraser;
pub mod flash;
pub mod image;
pub mod probe;
pub mod response;
pub mod target;
pub mod text;

verus! {

/// The greeting served at the root of the service.
pub open spec fn greeting() -> Seq<char> {
    "Hello, world!"@
}

/// Returns the fixed greeting text.
pub fn index() -> (body: &'static str)
    ensures
        body@ == greeting(),
{
    "Hello, world!"
}

} // verus!
