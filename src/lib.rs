//! Keeps a mounted logical volume from running out of space by provisioning,
//! attaching and incorporating additional block-storage volumes.
//!
//! [`EBSManager`] owns the configuration and one of each collaborator: the
//! volume provider ([`aws::AWS`]), the disk inspector ([`disk::DiskMgr`]) and
//! the filesystem expander ([`fs::FS`]). A driving loop asks
//! [`EBSManager::need_more_space`] and, when it answers `true`, calls
//! [`EBSManager::add_more_space`]. Calls into one manager must not overlap.
pub mod aws;
pub mod config;
pub mod disk;
pub mod errors;
pub mod fs;
pub mod mount_path;
pub mod pipeline;
pub mod policy;

use vstd::prelude::*;

use crate::aws::AWS;
use crate::config::{Config, VolumeGrowth};
use crate::disk::{DiskMgr, BYTES_PER_GB};
use crate::fs::FS;
use crate::pipeline::{next_step, step_error, steps_left, PipelineStep};
use crate::policy::{
    doubled,
    lemma_doubled_grows,
    ceiling_bytes,
    next_volume_size,
    planned_volume,
    room_gb,
    sized_volume,
    space_decision,
    threshold_for,
    uncapped_size,
};

pub use crate::errors::{
    AutoscaleError,
    MaxEBSCountExceededError,
    MaxLogicalVolumeSizeExceededError,
    MountPointNotFoundError,
    NoMoreDeviceNamesAvailableError,
    ProvisionStep,
};

verus! {

/// The capacity manager: decides when the managed volume needs more space
/// and runs the provisioning pipeline that adds it.
///
/// The pipeline is not transactional. A failure after the volume was
/// requested leaves what was done so far (an unattached, untagged or unused
/// volume) for the operator to reclaim; nothing is rolled back.
pub struct EBSManager<D: DiskMgr, A: AWS, F: FS> {
    pub config: Config,
    pub diskmgr: D,
    pub aws: A,
    pub fs: F,
}

impl<D: DiskMgr, A: AWS, F: FS> EBSManager<D, A, F> {
    pub fn new(conf: Config, disks: D, aws_cli: A, fs_lib: F) -> (r: Box<EBSManager<D, A, F>>)
        ensures
            r.config == conf,
            r.diskmgr == disks,
            r.aws == aws_cli,
            r.fs == fs_lib,
    {
        Box::new(EBSManager { config: conf, diskmgr: disks, aws: aws_cli, fs: fs_lib })
    }

    pub fn power_on_self_test(&self) -> (r: Result<bool, AutoscaleError>)
        ensures
            r == Ok::<bool, AutoscaleError>(true),
    {
        Ok(true)
    }

    /// Utilization percent at or above which more space is needed, with
    /// `dev_count` volumes attached.
    pub fn calc_threshold(&self, dev_count: u32) -> (r: Option<u32>)
        ensures
            r == Some(threshold_for(self.config.limits, dev_count)),
            dev_count < 4 ==> r == Some(self.config.limits.initial_utilization_threshold),
            4 <= dev_count <= 6 ==> r == Some(80u32),
            dev_count > 6 ==> r == Some(90u32),
    {
        if dev_count >= 4 && dev_count <= 6 {
            return Some(80);
        }
        if dev_count > 6 && dev_count <= 10 {
            return Some(90);
        }
        if dev_count > 10 {
            return Some(90);
        }
        Some(self.config.limits.initial_utilization_threshold)
    }

    /// Whether more space is needed, given the attached-volume count and the
    /// inspector's utilization report for the managed mount point.
    pub fn needs_space_for(&self, dev_count: u32, usage: Result<u32, MountPointNotFoundError>) -> (r:
        Result<bool, AutoscaleError>)
        ensures
            r == space_decision(self.config.limits, dev_count, usage),
            usage matches Ok(percent) ==> r == Ok::<bool, AutoscaleError>(
                percent >= threshold_for(self.config.limits, dev_count),
            ),
            usage is Err ==> r == Err::<bool, AutoscaleError>(AutoscaleError::MountPointNotFound),
    {
        let threshold = match self.calc_threshold(dev_count) {
            Some(t) => t,
            None => self.config.limits.initial_utilization_threshold,
        };
        match usage {
            Ok(percent) => Ok(percent >= threshold),
            Err(_) => Err(AutoscaleError::MountPointNotFound),
        }
    }

    /// Asks the provider how many volumes are attached and the inspector how
    /// full the managed mount point is, and decides by
    /// [`EBSManager::needs_space_for`]. An unknown mount point is reported as
    /// such.
    pub fn need_more_space(&mut self) -> (r: Result<bool, AutoscaleError>)
        ensures
            final(self).config == old(self).config,
            r is Err ==> r == Err::<bool, AutoscaleError>(AutoscaleError::MountPointNotFound),
    {
        let dev_count = self.aws.count_mounted_ebs_volumes();
        let usage = self.diskmgr.disk_usage_percent(self.config.mountpoint.clone());
        self.needs_space_for(dev_count, usage)
    }

    /// Size in GB that the configured growth curve gives for `dev_count`
    /// attached volumes, between the minimum and the maximum volume size.
    fn curve_size(&self, dev_count: u32) -> (r: u32)
        requires
            self.config.limits.wf(),
        ensures
            r == next_volume_size(self.config.limits, self.config.growth, dev_count),
            self.config.limits.min_ebs_volume_size <= r <= self.config.limits.max_ebs_volume_size,
    {
        let min = self.config.limits.min_ebs_volume_size as u64;
        let max = self.config.limits.max_ebs_volume_size as u64;
        let size: u64 = match self.config.growth {
            VolumeGrowth::Constant => min,
            VolumeGrowth::Linear => {
                let steps = dev_count as u64 + 1;
                assert(min * steps <= 0xffff_ffff * 0x1_0000_0000) by (nonlinear_arith)
                    requires
                        min <= 0xffff_ffff,
                        steps <= 0x1_0000_0000,
                ;
                min * steps
            },
            VolumeGrowth::Doubling => {
                let mut s: u64 = min;
                let mut i: u32 = 0;
                while i < dev_count && s < max
                    invariant
                        0 < min <= max <= 0xffff_ffff,
                        i <= dev_count,
                        s == doubled(min as int, i as nat),
                        s < 2 * max,
                    decreases dev_count - i,
                {
                    s = s * 2;
                    i = i + 1;
                }
                proof {
                    lemma_doubled_grows(min as int, i as nat, dev_count as nat);
                }
                s
            },
        };
        assert(size >= min) by {
            if self.config.growth == VolumeGrowth::Linear {
                assert(min * (dev_count as u64 + 1) >= min) by (nonlinear_arith)
                    requires
                        min > 0,
                ;
            }
            if self.config.growth == VolumeGrowth::Doubling {
                lemma_doubled_grows(min as int, 0, dev_count as nat);
            }
        }
        assert(size >= max ==> uncapped_size(self.config.limits, self.config.growth, dev_count)
            >= max);
        assert(size < max ==> uncapped_size(self.config.limits, self.config.growth, dev_count)
            == size);
        if size < max {
            size as u32
        } else {
            max as u32
        }
    }

    /// Size in GB of the next volume when `dev_count` volumes are attached and
    /// the logical volume holds `logical_size` bytes: the growth curve's size,
    /// shrunk where needed so that the logical volume stays within its
    /// ceiling. `None` when not even a minimum-size volume fits.
    pub fn calc_new_size(&self, dev_count: u32, logical_size: u64) -> (r: Option<u32>)
        requires
            self.config.limits.wf(),
        ensures
            r == sized_volume(self.config.limits, self.config.growth, dev_count, logical_size),
            r is None <==> room_gb(self.config.limits, logical_size)
                < self.config.limits.min_ebs_volume_size,
            r matches Some(size) ==> {
                &&& self.config.limits.min_ebs_volume_size <= size
                    <= self.config.limits.max_ebs_volume_size
                &&& logical_size + size * BYTES_PER_GB <= ceiling_bytes(self.config.limits)
            },
    {
        let ceiling = self.config.limits.max_logical_volume_size as u64 * BYTES_PER_GB;
        let room: u64 = if logical_size >= ceiling {
            0
        } else {
            (ceiling - logical_size) / BYTES_PER_GB
        };
        if room < self.config.limits.min_ebs_volume_size as u64 {
            return None;
        }
        let wanted = self.curve_size(dev_count);
        let size: u32 = if wanted as u64 <= room {
            wanted
        } else {
            room as u32
        };
        proof {
            let gb = BYTES_PER_GB as int;
            let free = ceiling - logical_size;
            assert(room * gb <= free) by (nonlinear_arith)
                requires
                    room == free / gb,
                    gb > 0,
                    free >= 0,
            ;
            assert(size * gb <= room * gb) by (nonlinear_arith)
                requires
                    size <= room,
                    gb > 0,
            ;
        }
        Some(size)
    }

    /// The checks made before the provider is asked for anything, from the
    /// attached-volume count and the inspector's report of the managed
    /// volume's size in bytes: the size of the volume to add, or why none is
    /// added.
    pub fn plan_new_volume(&self, dev_count: u32, logical_size: Result<u64, MountPointNotFoundError>) -> (r:
        Result<u32, AutoscaleError>)
        requires
            self.config.limits.wf(),
        ensures
            r == planned_volume(self.config, dev_count, logical_size),
            dev_count >= self.config.limits.max_ebs_volume_count ==> r == Err::<u32, AutoscaleError>(
                AutoscaleError::MaxEBSCountExceeded,
            ),
            dev_count < self.config.limits.max_ebs_volume_count && logical_size is Err ==> r == Err::<
                u32,
                AutoscaleError,
            >(AutoscaleError::MountPointNotFound),
            dev_count < self.config.limits.max_ebs_volume_count && logical_size is Ok
                && logical_size->Ok_0 >= ceiling_bytes(self.config.limits) ==> r == Err::<
                u32,
                AutoscaleError,
            >(AutoscaleError::MaxLogicalVolumeSizeExceeded),
            r matches Ok(v) ==> {
                &&& self.config.limits.min_ebs_volume_size <= v
                    <= self.config.limits.max_ebs_volume_size
                &&& logical_size->Ok_0 + v * BYTES_PER_GB <= ceiling_bytes(self.config.limits)
            },
    {
        let limits = &self.config.limits;
        if dev_count >= limits.max_ebs_volume_count {
            return Err(AutoscaleError::MaxEBSCountExceeded);
        }
        let size = match logical_size {
            Ok(s) => s,
            Err(_) => return Err(AutoscaleError::MountPointNotFound),
        };
        if size >= limits.max_logical_volume_size as u64 * BYTES_PER_GB {
            return Err(AutoscaleError::MaxLogicalVolumeSizeExceeded);
        }
        match self.calc_new_size(dev_count, size) {
            Some(v) => Ok(v),
            None => Err(AutoscaleError::MaxLogicalVolumeSizeExceeded),
        }
    }

    /// What the pipeline does once `step` has run: on failure it ends with
    /// that step's error; on success it goes on to the next step, or ends
    /// (`Ok(None)`) after the last one.
    pub fn after_step(&self, step: PipelineStep, succeeded: bool) -> (r: Result<
        Option<PipelineStep>,
        AutoscaleError,
    >)
        ensures
            !succeeded ==> r == Err::<Option<PipelineStep>, AutoscaleError>(step_error(step)),
            succeeded ==> r == Ok::<Option<PipelineStep>, AutoscaleError>(
                next_step(self.config, step),
            ),
    {
        if !succeeded {
            return Err(
                match step {
                    PipelineStep::RequestVolume => AutoscaleError::AWS(ProvisionStep::RequestVolume),
                    PipelineStep::NameDevice => AutoscaleError::NoMoreDeviceNamesAvailable,
                    PipelineStep::AttachVolume => AutoscaleError::AWS(ProvisionStep::AttachVolume),
                    PipelineStep::TagVolume => AutoscaleError::AWS(ProvisionStep::TagVolume),
                    PipelineStep::ExpandFilesystem => AutoscaleError::FS,
                },
            );
        }
        Ok(
            match step {
                PipelineStep::RequestVolume => Some(PipelineStep::NameDevice),
                PipelineStep::NameDevice => Some(PipelineStep::AttachVolume),
                PipelineStep::AttachVolume => if self.config.ensure_ebs_deleted_on_term {
                    Some(PipelineStep::TagVolume)
                } else {
                    Some(PipelineStep::ExpandFilesystem)
                },
                PipelineStep::TagVolume => Some(PipelineStep::ExpandFilesystem),
                PipelineStep::ExpandFilesystem => None,
            },
        )
    }

    /// Adds one volume to the managed filesystem: checks the limits, then runs
    /// the pipeline from [`PipelineStep::RequestVolume`] on, one collaborator
    /// call per step, in the order and with the outcome that
    /// [`EBSManager::after_step`] gives. The volume handle, device name and
    /// volume settings are handed from step to step unchanged. An expansion
    /// that reports the device unused counts as failed.
    ///
    /// Nothing is asked of any collaborator when the volume count is already
    /// at its ceiling, and nothing of the provider when the checks on the
    /// logical volume's size fail.
    pub fn add_more_space(&mut self, dev_count: u32) -> (r: Result<bool, AutoscaleError>)
        requires
            old(self).config.limits.wf(),
        ensures
            final(self).config == old(self).config,
            dev_count >= old(self).config.limits.max_ebs_volume_count ==> {
                &&& r == Err::<bool, AutoscaleError>(AutoscaleError::MaxEBSCountExceeded)
                &&& *final(self) == *old(self)
            },
            dev_count < old(self).config.limits.max_ebs_volume_count ==> r != Err::<
                bool,
                AutoscaleError,
            >(AutoscaleError::MaxEBSCountExceeded),
            r == Err::<bool, AutoscaleError>(AutoscaleError::MountPointNotFound) || r == Err::<
                bool,
                AutoscaleError,
            >(AutoscaleError::MaxLogicalVolumeSizeExceeded) ==> final(self).aws == old(self).aws,
            r is Ok ==> r == Ok::<bool, AutoscaleError>(true),
            !old(self).config.ensure_ebs_deleted_on_term ==> r != Err::<bool, AutoscaleError>(
                AutoscaleError::AWS(ProvisionStep::TagVolume),
            ),
    {
        if dev_count >= self.config.limits.max_ebs_volume_count {
            return Err(AutoscaleError::MaxEBSCountExceeded);
        }
        let logical_size = self.diskmgr.disk_size(self.config.mountpoint.clone());
        let new_size = match self.plan_new_volume(dev_count, logical_size) {
            Ok(v) => v,
            Err(e) => return Err(e),
        };
        let mut volume = String::new();
        let mut device = String::new();
        let mut step = PipelineStep::RequestVolume;
        loop
            invariant
                self.config == old(self).config,
                dev_count < self.config.limits.max_ebs_volume_count,
                !self.config.ensure_ebs_deleted_on_term ==> step != PipelineStep::TagVolume,
            decreases steps_left(step),
        {
            let succeeded = match step {
                PipelineStep::RequestVolume => match self.aws.request_ebs_volume(
                    new_size as u64,
                    self.config.volume.vol_type.clone(),
                    self.config.volume.encrypted,
                    self.config.volume.throughput,
                ) {
                    Ok(v) => {
                        volume = v;
                        true
                    },
                    Err(_) => false,
                },
                PipelineStep::NameDevice => match self.diskmgr.get_next_logical_device() {
                    Ok(d) => {
                        device = d;
                        true
                    },
                    Err(_) => false,
                },
                PipelineStep::AttachVolume => match self.aws.attach_ebs_volume(
                    volume.clone(),
                    device.clone(),
                ) {
                    Ok(d) => {
                        device = d;
                        true
                    },
                    Err(_) => false,
                },
                PipelineStep::TagVolume => match self.aws.tag_as_delete_on_term(device.clone()) {
                    Ok(d) => {
                        device = d;
                        true
                    },
                    Err(_) => false,
                },
                PipelineStep::ExpandFilesystem => match self.fs.expand_volume(device.clone()) {
                    Ok(used) => used,
                    Err(_) => false,
                },
            };
            match self.after_step(step, succeeded) {
                Err(e) => return Err(e),
                Ok(None) => return Ok(true),
                Ok(Some(next)) => step = next,
            }
        }
    }
}

} // verus!
