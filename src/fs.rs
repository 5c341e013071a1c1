//! The filesystem expander: grows the managed filesystem onto a new device.
use vstd::prelude::*;

pub use crate::errors::GenericFSError;

verus! {

/// Grows the filesystem at the managed mount point onto an attached device.
pub trait FS {
    /// Adds the device `dev` to the filesystem; the flag says whether the
    /// filesystem now uses it. The pipeline counts `false` as a failure.
    fn expand_volume(&self, dev: String) -> Result<bool, Box<GenericFSError>>;
}

/// Expander for the filesystem type `fs_type`.
pub struct ConcreteFS {
    pub fs_type: String,
}

impl FS for ConcreteFS {
    fn expand_volume(&self, dev: String) -> (r: Result<bool, Box<GenericFSError>>)
        ensures
            r == Ok::<bool, Box<GenericFSError>>(true),
    {
        Ok(true)
    }
}

/// Test double of the expander: fails when `simulate_fs_err` is set.
pub struct MockFS {
    pub simulate_fs_err: bool,
}

impl Default for MockFS {
    fn default() -> (r: Self)
        ensures
            !r.simulate_fs_err,
    {
        MockFS { simulate_fs_err: false }
    }
}

impl FS for MockFS {
    fn expand_volume(&self, dev: String) -> (r: Result<bool, Box<GenericFSError>>)
        ensures
            self.simulate_fs_err ==> r is Err,
            !self.simulate_fs_err ==> r == Ok::<bool, Box<GenericFSError>>(true),
    {
        if self.simulate_fs_err {
            return Err(Box::new(GenericFSError));
        }
        Ok(true)
    }
}

} // verus!
