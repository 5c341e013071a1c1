//! The capacity policy: when the managed volume needs more space, and how
//! large the next volume is.
use vstd::prelude::*;

use crate::config::{Config, Limits, VolumeGrowth};
use crate::disk::BYTES_PER_GB;
use crate::errors::{AutoscaleError, MountPointNotFoundError};

verus! {

/// Utilization percent at or above which a volume is added, given how many
/// volumes are attached. More volumes make a larger pool, which can run
/// closer to full before the next one is needed.
pub open spec fn threshold_for(limits: Limits, dev_count: u32) -> u32 {
    if 4 <= dev_count <= 6 {
        80
    } else if dev_count > 6 {
        90
    } else {
        limits.initial_utilization_threshold
    }
}

/// Answer to "is more space needed?" from the attached-volume count and the
/// inspector's utilization report.
pub open spec fn space_decision(
    limits: Limits,
    dev_count: u32,
    usage: Result<u32, MountPointNotFoundError>,
) -> Result<bool, AutoscaleError> {
    match usage {
        Ok(percent) => Ok(percent >= threshold_for(limits, dev_count)),
        Err(_) => Err(AutoscaleError::MountPointNotFound),
    }
}

/// `base` doubled `n` times.
pub open spec fn doubled(base: int, n: nat) -> int
    decreases n,
{
    if n == 0 {
        base
    } else {
        2 * doubled(base, (n - 1) as nat)
    }
}

/// Size of the growth curve before the cap, for `dev_count` attached volumes.
pub open spec fn uncapped_size(limits: Limits, growth: VolumeGrowth, dev_count: u32) -> int {
    match growth {
        VolumeGrowth::Constant => limits.min_ebs_volume_size as int,
        VolumeGrowth::Linear => limits.min_ebs_volume_size * (dev_count + 1),
        VolumeGrowth::Doubling => doubled(limits.min_ebs_volume_size as int, dev_count as nat),
    }
}

/// Size in GB that the growth curve gives for `dev_count` attached volumes,
/// capped at the maximum volume size.
pub open spec fn next_volume_size(limits: Limits, growth: VolumeGrowth, dev_count: u32) -> u32 {
    let s = uncapped_size(limits, growth, dev_count);
    if s < limits.max_ebs_volume_size {
        s as u32
    } else {
        limits.max_ebs_volume_size
    }
}

/// The logical-volume ceiling in bytes.
pub open spec fn ceiling_bytes(limits: Limits) -> int {
    limits.max_logical_volume_size * BYTES_PER_GB
}

/// Whole GB left under the logical-volume ceiling when the logical volume
/// holds `logical_size` bytes.
pub open spec fn room_gb(limits: Limits, logical_size: u64) -> int {
    if logical_size >= ceiling_bytes(limits) {
        0
    } else {
        (ceiling_bytes(limits) - logical_size) / (BYTES_PER_GB as int)
    }
}

/// Size in GB of the next volume for `dev_count` attached volumes and a
/// logical volume of `logical_size` bytes: the growth curve's size, shrunk
/// where needed so that the logical volume stays within its ceiling. `None`
/// when not even a minimum-size volume fits.
pub open spec fn sized_volume(
    limits: Limits,
    growth: VolumeGrowth,
    dev_count: u32,
    logical_size: u64,
) -> Option<u32> {
    let room = room_gb(limits, logical_size);
    if room < limits.min_ebs_volume_size {
        None
    } else if next_volume_size(limits, growth, dev_count) <= room {
        Some(next_volume_size(limits, growth, dev_count))
    } else {
        Some(room as u32)
    }
}

/// The checks made before anything is asked of the provider: the size of the
/// volume to add, or why none is added. `logical_size` is the inspector's
/// report of the managed volume's current size in bytes.
///
/// When not even a minimum-size volume fits under the ceiling, the ceiling
/// counts as reached.
pub open spec fn planned_volume(
    config: Config,
    dev_count: u32,
    logical_size: Result<u64, MountPointNotFoundError>,
) -> Result<u32, AutoscaleError> {
    let limits = config.limits;
    if dev_count >= limits.max_ebs_volume_count {
        Err(AutoscaleError::MaxEBSCountExceeded)
    } else {
        match logical_size {
            Err(_) => Err(AutoscaleError::MountPointNotFound),
            Ok(size) => {
                if size >= ceiling_bytes(limits) {
                    Err(AutoscaleError::MaxLogicalVolumeSizeExceeded)
                } else {
                    match sized_volume(limits, config.growth, dev_count, size) {
                        None => Err(AutoscaleError::MaxLogicalVolumeSizeExceeded),
                        Some(v) => Ok(v),
                    }
                }
            },
        }
    }
}

proof fn lemma_doubled_positive(base: int, n: nat)
    requires
        base > 0,
    ensures
        doubled(base, n) >= base,
    decreases n,
{
    if n > 0 {
        lemma_doubled_positive(base, (n - 1) as nat);
    }
}

pub(crate) proof fn lemma_doubled_grows(base: int, i: nat, n: nat)
    requires
        base > 0,
        i <= n,
    ensures
        doubled(base, i) <= doubled(base, n),
    decreases n - i,
{
    if i < n {
        lemma_doubled_positive(base, i);
        lemma_doubled_grows(base, i + 1, n);
    }
}

} // verus!
