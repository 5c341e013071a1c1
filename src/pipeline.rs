//! The steps of the provisioning pipeline and the order in which they run.
use vstd::prelude::*;

use crate::config::Config;
use crate::errors::{AutoscaleError, ProvisionStep};

verus! {

/// One collaborator call of the provisioning pipeline.
#[derive(Debug, Clone, Copy, PartialEq, Eq, Structural)]
pub enum PipelineStep {
    /// The provider creates a volume of the planned size.
    RequestVolume,
    /// The inspector picks a free local device name.
    NameDevice,
    /// The provider attaches the volume under that name.
    AttachVolume,
    /// The provider marks the device for deletion on termination.
    TagVolume,
    /// The expander grows the filesystem onto the device.
    ExpandFilesystem,
}

/// The error that ends the pipeline when `step` fails.
pub open spec fn step_error(step: PipelineStep) -> AutoscaleError {
    match step {
        PipelineStep::RequestVolume => AutoscaleError::AWS(ProvisionStep::RequestVolume),
        PipelineStep::NameDevice => AutoscaleError::NoMoreDeviceNamesAvailable,
        PipelineStep::AttachVolume => AutoscaleError::AWS(ProvisionStep::AttachVolume),
        PipelineStep::TagVolume => AutoscaleError::AWS(ProvisionStep::TagVolume),
        PipelineStep::ExpandFilesystem => AutoscaleError::FS,
    }
}

/// The step that follows a successful `step`; `None` after the last one.
/// Tagging runs exactly when volumes are to be deleted on termination.
pub open spec fn next_step(config: Config, step: PipelineStep) -> Option<PipelineStep> {
    match step {
        PipelineStep::RequestVolume => Some(PipelineStep::NameDevice),
        PipelineStep::NameDevice => Some(PipelineStep::AttachVolume),
        PipelineStep::AttachVolume => if config.ensure_ebs_deleted_on_term {
            Some(PipelineStep::TagVolume)
        } else {
            Some(PipelineStep::ExpandFilesystem)
        },
        PipelineStep::TagVolume => Some(PipelineStep::ExpandFilesystem),
        PipelineStep::ExpandFilesystem => None,
    }
}

/// How many steps at most are left from `step` on; every step moves forward.
pub open spec fn steps_left(step: PipelineStep) -> nat {
    match step {
        PipelineStep::RequestVolume => 5,
        PipelineStep::NameDevice => 4,
        PipelineStep::AttachVolume => 3,
        PipelineStep::TagVolume => 2,
        PipelineStep::ExpandFilesystem => 1,
    }
}

} // verus!
