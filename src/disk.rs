//! The disk inspector: utilization and size of mounted filesystems, and the
//! local device names that new volumes are attached under.
use vstd::prelude::*;

use crate::mount_path::{path_key, path_key_of, same_key};

pub use crate::errors::{MountPointNotFoundError, NoMoreDeviceNamesAvailableError};

verus! {

/// Bytes in one GB, the unit of every size limit.
pub const BYTES_PER_GB: u64 = 1073741824;

/// Local view of the host's disks.
pub trait DiskMgr {
    /// Forgets the disks seen so far.
    fn new_disks(&mut self);

    /// Takes a fresh list of the mounted disks.
    fn save_disk_list(&mut self);

    /// Returns the usage percentage for a mountpoint
    fn disk_usage_percent(&mut self, mountpoint: String) -> Result<u32, MountPointNotFoundError>;

    /// Total size for a mountpoint, in bytes
    fn disk_size(&mut self, mountpoint: String) -> Result<u64, MountPointNotFoundError>;

    /// Next local device name that no volume is attached under.
    fn get_next_logical_device(&mut self) -> Result<String, NoMoreDeviceNamesAvailableError>;
}

/// What the operating system reports of one mounted disk.
pub struct DiskSnapshot {
    pub mount_point: String,
    /// Capacity in bytes.
    pub total_space: u64,
    /// Free bytes.
    pub available_space: u64,
}

/// The first disk of `disks` mounted at `mountpoint`, if any. Mount points
/// are compared by [`path_key`], so `/data/` and `/data` are the same.
pub open spec fn disk_at(disks: Seq<DiskSnapshot>, mountpoint: Seq<char>) -> Option<DiskSnapshot>
    decreases disks.len(),
{
    if disks.len() == 0 {
        None
    } else if path_key(disks[0].mount_point@) == path_key(mountpoint) {
        Some(disks[0])
    } else {
        disk_at(disks.drop_first(), mountpoint)
    }
}

/// Percent of the disk's capacity in use, rounded down; a disk without
/// capacity counts as full.
pub open spec fn used_percent(d: DiskSnapshot) -> int {
    if d.total_space == 0 {
        100
    } else if d.available_space >= d.total_space {
        0
    } else {
        (d.total_space - d.available_space) * 100 / (d.total_space as int)
    }
}

proof fn lemma_disk_at_skip(disks: Seq<DiskSnapshot>, i: int, mountpoint: Seq<char>)
    requires
        0 <= i < disks.len(),
        path_key(disks[i].mount_point@) != path_key(mountpoint),
    ensures
        disk_at(disks.subrange(i, disks.len() as int), mountpoint) == disk_at(
            disks.subrange(i + 1, disks.len() as int),
            mountpoint,
        ),
{
    let rest = disks.subrange(i, disks.len() as int);
    assert(rest.drop_first() =~= disks.subrange(i + 1, disks.len() as int));
}

/// Index of the first disk mounted at `mountpoint`, or `disks.len()`.
fn find_disk(disks: &Vec<DiskSnapshot>, mountpoint: &String) -> (r: usize)
    ensures
        r <= disks.len(),
        r < disks.len() ==> disk_at(disks@, mountpoint@) == Some(disks@[r as int]),
        r == disks.len() ==> disk_at(disks@, mountpoint@) is None,
{
    let wanted = path_key_of(mountpoint.as_str());
    let mut i: usize = 0;
    assert(disks@.subrange(0, disks@.len() as int) =~= disks@);
    while i < disks.len()
        invariant
            i <= disks.len(),
            wanted@ == path_key(mountpoint@),
            disk_at(disks@, mountpoint@) == disk_at(
                disks@.subrange(i as int, disks@.len() as int),
                mountpoint@,
            ),
        decreases disks.len() - i,
    {
        let here = path_key_of(disks[i].mount_point.as_str());
        if same_key(&here, &wanted) {
            return i;
        }
        proof {
            lemma_disk_at_skip(disks@, i as int, mountpoint@);
        }
        i = i + 1;
    }
    i
}

/// Utilization percent of the filesystem mounted at `mountpoint`.
pub fn usage_percent_of(disks: &Vec<DiskSnapshot>, mountpoint: &String) -> (r: Result<
    u32,
    MountPointNotFoundError,
>)
    ensures
        r is Err <==> disk_at(disks@, mountpoint@) is None,
        r matches Ok(p) ==> p == used_percent(disk_at(disks@, mountpoint@)->Some_0),
        r matches Ok(p) ==> p <= 100,
{
    let i = find_disk(disks, mountpoint);
    if i == disks.len() {
        return Err(MountPointNotFoundError);
    }
    let d = &disks[i];
    if d.total_space == 0 {
        Ok(100)
    } else if d.available_space >= d.total_space {
        Ok(0)
    } else {
        let used = (d.total_space - d.available_space) as u128;
        let pct = used * 100 / (d.total_space as u128);
        proof {
            let t = d.total_space as int;
            assert(used * 100 <= t * 100) by (nonlinear_arith)
                requires
                    used <= t,
            ;
            assert((used * 100) / t <= (t * 100) / t) by (nonlinear_arith)
                requires
                    used * 100 <= t * 100,
                    t > 0,
            ;
            assert((t * 100) / t == 100) by (nonlinear_arith)
                requires
                    t > 0,
            ;
        }
        Ok(pct as u32)
    }
}

/// Size in bytes of the filesystem mounted at `mountpoint`.
pub fn total_size_of(disks: &Vec<DiskSnapshot>, mountpoint: &String) -> (r: Result<
    u64,
    MountPointNotFoundError,
>)
    ensures
        r is Err <==> disk_at(disks@, mountpoint@) is None,
        r matches Ok(s) ==> s == disk_at(disks@, mountpoint@)->Some_0.total_space,
{
    let i = find_disk(disks, mountpoint);
    if i == disks.len() {
        return Err(MountPointNotFoundError);
    }
    Ok(disks[i].total_space)
}

/// `gb` GB in bytes, or `u64::MAX` where that does not fit.
pub open spec fn gb_in_bytes(gb: u64) -> u64 {
    if gb * BYTES_PER_GB <= u64::MAX {
        (gb * BYTES_PER_GB) as u64
    } else {
        u64::MAX
    }
}

/// Test double of the inspector: reports fixed figures for every mount point
/// (`total_disk_size` in GB) and runs out of device names when
/// `sim_no_more_device_names` is set.
pub struct MockDiskMgr {
    pub disks: Vec<String>,
    pub utilization_percentage: u32,
    pub total_disk_size: u64,
    pub sim_no_more_device_names: bool,
}

impl Default for MockDiskMgr {
    fn default() -> (r: MockDiskMgr)
        ensures
            r.disks@.len() == 1,
            r.disks@[0]@ == "test"@,
            r.utilization_percentage == 10,
            r.total_disk_size == 100,
            !r.sim_no_more_device_names,
    {
        let mut disks: Vec<String> = Vec::new();
        disks.push("test".to_string());
        proof {
            reveal_strlit("test");
        }
        MockDiskMgr {
            disks,
            utilization_percentage: 10,
            total_disk_size: 100,
            sim_no_more_device_names: false,
        }
    }
}

impl DiskMgr for MockDiskMgr {
    fn new_disks(&mut self)
        ensures
            final(self).disks@.len() == 0,
            final(self).utilization_percentage == old(self).utilization_percentage,
            final(self).total_disk_size == old(self).total_disk_size,
            final(self).sim_no_more_device_names == old(self).sim_no_more_device_names,
    {
        self.disks = Vec::new();
    }

    fn save_disk_list(&mut self)
        ensures
            final(self).disks@.len() == 1,
            final(self).disks@[0]@ == "test"@,
            final(self).utilization_percentage == old(self).utilization_percentage,
            final(self).total_disk_size == old(self).total_disk_size,
            final(self).sim_no_more_device_names == old(self).sim_no_more_device_names,
    {
        let mut disks: Vec<String> = Vec::new();
        disks.push("test".to_string());
        self.disks = disks;
    }

    fn disk_usage_percent(&mut self, mountpoint: String) -> (r: Result<u32, MountPointNotFoundError>)
        ensures
            *final(self) == *old(self),
            r == Ok::<u32, MountPointNotFoundError>(old(self).utilization_percentage),
    {
        Ok(self.utilization_percentage)
    }

    fn disk_size(&mut self, mountpoint: String) -> (r: Result<u64, MountPointNotFoundError>)
        ensures
            *final(self) == *old(self),
            r == Ok::<u64, MountPointNotFoundError>(gb_in_bytes(old(self).total_disk_size)),
    {
        if self.total_disk_size <= u64::MAX / BYTES_PER_GB {
            Ok(self.total_disk_size * BYTES_PER_GB)
        } else {
            Ok(u64::MAX)
        }
    }

    fn get_next_logical_device(&mut self) -> (r: Result<String, NoMoreDeviceNamesAvailableError>)
        ensures
            *final(self) == *old(self),
            r is Err <==> old(self).sim_no_more_device_names,
            r matches Ok(name) ==> name@ == "/dev/test"@,
    {
        if self.sim_no_more_device_names {
            return Err(NoMoreDeviceNamesAvailableError);
        }
        proof {
            reveal_strlit("/dev/test");
        }
        Ok("/dev/test".to_string())
    }
}

} // verus!
