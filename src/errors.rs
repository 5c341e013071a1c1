//! Failures of the collaborators and of the provisioning pipeline.
use vstd::prelude::*;

verus! {

/// The disk inspector knows no filesystem mounted at the given mount point.
#[derive(Debug, Clone, Copy, PartialEq, Eq, Structural)]
pub struct MountPointNotFoundError;

/// The disk inspector has no free local device name left to hand out.
#[derive(Debug, Clone, Copy, PartialEq, Eq, Structural)]
pub struct NoMoreDeviceNamesAvailableError;

/// Attaching one more volume would exceed the configured volume count.
#[derive(Debug, Clone, Copy, PartialEq, Eq, Structural)]
pub struct MaxEBSCountExceededError;

/// The logical volume already has (or would get) more than its configured size.
#[derive(Debug, Clone, Copy, PartialEq, Eq, Structural)]
pub struct MaxLogicalVolumeSizeExceededError;

/// The volume provider rejected a request.
#[derive(Debug, Clone, Copy, PartialEq, Eq, Structural)]
pub struct GenericAWSError;

/// The filesystem expander could not grow the filesystem.
#[derive(Debug, Clone, Copy, PartialEq, Eq, Structural)]
pub struct GenericFSError;

impl MountPointNotFoundError {
    pub fn message(&self) -> (r: &'static str)
        ensures
            r@ == "Could not find mount point"@,
    {
        "Could not find mount point"
    }
}

impl NoMoreDeviceNamesAvailableError {
    pub fn message(&self) -> (r: &'static str)
        ensures
            r@ == "No more device names (i.e. /dev/xvdb*) available!"@,
    {
        "No more device names (i.e. /dev/xvdb*) available!"
    }
}

impl MaxEBSCountExceededError {
    pub fn message(&self) -> (r: &'static str)
        ensures
            r@ == "Maximum number of EBS volumes exceeded"@,
    {
        "Maximum number of EBS volumes exceeded"
    }
}

impl MaxLogicalVolumeSizeExceededError {
    pub fn message(&self) -> (r: &'static str)
        ensures
            r@ == "Maximum logical volume size exceeded"@,
    {
        "Maximum logical volume size exceeded"
    }
}

impl GenericAWSError {
    pub fn message(&self) -> (r: &'static str)
        ensures
            r@ == "Error calling AWS API"@,
    {
        "Error calling AWS API"
    }
}

impl GenericFSError {
    pub fn message(&self) -> (r: &'static str)
        ensures
            r@ == "Error expanding filesystem"@,
    {
        "Error expanding filesystem"
    }
}

/// The volume-provider call of the provisioning pipeline that failed.
#[derive(Debug, Clone, Copy, PartialEq, Eq, Structural)]
pub enum ProvisionStep {
    RequestVolume,
    AttachVolume,
    TagVolume,
}

/// Every way in which a capacity decision or a provisioning run can fail.
///
/// Limit violations are found before anything is changed on the provider's side;
/// the other kinds are reported by a collaborator and passed on unchanged.
#[derive(Debug, Clone, Copy, PartialEq, Eq, Structural)]
pub enum AutoscaleError {
    MaxEBSCountExceeded,
    MaxLogicalVolumeSizeExceeded,
    MountPointNotFound,
    NoMoreDeviceNamesAvailable,
    AWS(ProvisionStep),
    FS,
}

impl AutoscaleError {
    pub fn message(&self) -> (r: &'static str)
        ensures
            *self == AutoscaleError::MaxEBSCountExceeded ==> r@ == "Maximum number of EBS volumes exceeded"@,
            *self == AutoscaleError::MaxLogicalVolumeSizeExceeded ==> r@ == "Maximum logical volume size exceeded"@,
            *self == AutoscaleError::MountPointNotFound ==> r@ == "Could not find mount point"@,
            *self == AutoscaleError::NoMoreDeviceNamesAvailable ==> r@ == "No more device names (i.e. /dev/xvdb*) available!"@,
            *self == AutoscaleError::AWS(ProvisionStep::RequestVolume) ==> r@ == "Error calling AWS API: requesting a volume"@,
            *self == AutoscaleError::AWS(ProvisionStep::AttachVolume) ==> r@ == "Error calling AWS API: attaching a volume"@,
            *self == AutoscaleError::AWS(ProvisionStep::TagVolume) ==> r@ == "Error calling AWS API: tagging a volume"@,
            *self == AutoscaleError::FS ==> r@ == "Error expanding filesystem"@,
    {
        match self {
            AutoscaleError::MaxEBSCountExceeded => "Maximum number of EBS volumes exceeded",
            AutoscaleError::MaxLogicalVolumeSizeExceeded => "Maximum logical volume size exceeded",
            AutoscaleError::MountPointNotFound => "Could not find mount point",
            AutoscaleError::NoMoreDeviceNamesAvailable => "No more device names (i.e. /dev/xvdb*) available!",
            AutoscaleError::AWS(ProvisionStep::RequestVolume) => "Error calling AWS API: requesting a volume",
            AutoscaleError::AWS(ProvisionStep::AttachVolume) => "Error calling AWS API: attaching a volume",
            AutoscaleError::AWS(ProvisionStep::TagVolume) => "Error calling AWS API: tagging a volume",
            AutoscaleError::FS => "Error expanding filesystem",
        }
    }
}

} // verus!
