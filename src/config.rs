//! Read-only configuration of the autoscaler.
use vstd::prelude::*;

verus! {

/// Ceilings and tunables of the capacity policy. Sizes are in GB.
pub struct Limits {
    /// Utilization percent that triggers growth while few volumes are attached.
    pub initial_utilization_threshold: u32,
    pub min_ebs_volume_size: u32,
    pub max_ebs_volume_size: u32,
    pub max_logical_volume_size: u32,
    pub max_ebs_volume_count: u32,
}

impl Limits {
    /// Every limit is positive and the volume size bounds are ordered.
    pub open spec fn wf(&self) -> bool {
        &&& 0 < self.initial_utilization_threshold
        &&& 0 < self.min_ebs_volume_size <= self.max_ebs_volume_size
        &&& 0 < self.max_logical_volume_size
        &&& 0 < self.max_ebs_volume_count
    }

    /// Whether these limits can be used: see [`Limits::wf`].
    pub fn is_valid(&self) -> (r: bool)
        ensures
            r == self.wf(),
    {
        0 < self.initial_utilization_threshold && 0 < self.min_ebs_volume_size
            && self.min_ebs_volume_size <= self.max_ebs_volume_size && 0
            < self.max_logical_volume_size && 0 < self.max_ebs_volume_count
    }
}

/// How the size of each added volume grows with the number of volumes that
/// are already attached. Every curve starts at the minimum volume size and is
/// capped at the maximum one.
#[derive(Debug, Clone, Copy, PartialEq, Eq, Structural)]
pub enum VolumeGrowth {
    /// Always the minimum size: many small steps, the least unused space.
    Constant,
    /// One more minimum size per attached volume: steady growth.
    Linear,
    /// Twice as large per attached volume: reacts to bursts with few volumes.
    Doubling,
}

/// Properties of every volume the provider is asked for.
pub struct VolumeSettings {
    pub vol_type: String,
    pub encrypted: bool,
    /// Throughput in MB/s.
    pub throughput: u64,
}

pub struct Config {
    /// Ensure that EBS volumes are deleted on termination
    ///
    /// By default, this is true. If you prefer to keep it safe, turn this config to false
    pub ensure_ebs_deleted_on_term: bool,
    /// Detection interval, in seconds
    ///
    /// Default: 2 seconds
    pub detection_interval: u8,
    pub mountpoint: String,
    pub limits: Limits,
    pub fs_type: String,
    pub volume: VolumeSettings,
    pub growth: VolumeGrowth,
}

impl Default for Config {
    fn default() -> (r: Self)
        ensures
            r.ensure_ebs_deleted_on_term,
            r.detection_interval == 2,
            r.mountpoint@ == "/dev/xvdba"@,
            r.limits.initial_utilization_threshold == 80,
            r.limits.min_ebs_volume_size == 10,
            r.limits.max_ebs_volume_size == 1000,
            r.limits.max_logical_volume_size == 1000,
            r.limits.max_ebs_volume_count == 100,
            r.limits.wf(),
            r.fs_type@ == "btrfs"@,
            r.volume.vol_type@ == "gp3"@,
            r.volume.encrypted,
            r.volume.throughput == 125,
            r.growth == VolumeGrowth::Linear,
    {
        proof {
            reveal_strlit("/dev/xvdba");
            reveal_strlit("btrfs");
            reveal_strlit("gp3");
        }
        Config {
            ensure_ebs_deleted_on_term: true,
            detection_interval: 2,
            mountpoint: "/dev/xvdba".to_string(),
            limits: Limits {
                initial_utilization_threshold: 80,
                min_ebs_volume_size: 10,
                max_ebs_volume_size: 1000,
                max_logical_volume_size: 1000,
                max_ebs_volume_count: 100,
            },
            fs_type: "btrfs".to_string(),
            volume: VolumeSettings {
                vol_type: "gp3".to_string(),
                encrypted: true,
                throughput: 125,
            },
            growth: VolumeGrowth::Linear,
        }
    }
}

} // verus!
