//! The volume provider: creates, attaches and tags block-storage volumes.
use vstd::prelude::*;

pub use crate::errors::GenericAWSError;

verus! {

/// Operations of the cloud volume provider that the capacity manager drives.
///
/// Implementations talk to the outside world, so nothing is promised of what
/// they report; the manager decides on whatever comes back.
pub trait AWS {
    /// Creates a volume of `size` GB and returns its handle.
    fn request_ebs_volume(
        &mut self,
        size: u64,
        vol_type: String,
        encrypted: bool,
        throughput: u64,
    ) -> Result<String, Box<GenericAWSError>>;

    /// Attaches the volume `volume` at the local device name `device` and
    /// returns the name under which it is now attached.
    fn attach_ebs_volume(&mut self, volume: String, device: String) -> Result<
        String,
        Box<GenericAWSError>,
    >;

    /// Refreshes what the provider knows of the volumes it created.
    fn get_managed_ebs_volumes(&mut self);

    /// Number of volumes currently attached to this host.
    fn count_mounted_ebs_volumes(&mut self) -> u32;

    /// Releases the volumes created by this provider.
    fn delete_ebs_volume(&mut self);

    /// Marks the attached device to be deleted when the host terminates.
    fn tag_as_delete_on_term(&mut self, device: String) -> Result<String, Box<GenericAWSError>>;
}

/// Provider that grants every request under the fixed device `/dev/test` and
/// reports 30 attached volumes.
pub struct ConcreteAWS {}

impl AWS for ConcreteAWS {
    fn request_ebs_volume(
        &mut self,
        size: u64,
        vol_type: String,
        encrypted: bool,
        throughput: u64,
    ) -> (r: Result<String, Box<GenericAWSError>>)
        ensures
            r is Ok,
    {
        Ok("/dev/test".to_string())
    }

    fn attach_ebs_volume(&mut self, volume: String, device: String) -> (r: Result<
        String,
        Box<GenericAWSError>,
    >)
        ensures
            r is Ok,
    {
        Ok("/dev/test".to_string())
    }

    fn get_managed_ebs_volumes(&mut self) {
    }

    fn count_mounted_ebs_volumes(&mut self) -> (r: u32)
        ensures
            r == 30,
    {
        30
    }

    fn delete_ebs_volume(&mut self) {
    }

    fn tag_as_delete_on_term(&mut self, device: String) -> (r: Result<String, Box<GenericAWSError>>)
        ensures
            r is Ok,
    {
        Ok("/dev/test".to_string())
    }
}

/// Test double of the provider: fails every request when `simulate_aws_err`
/// is set and reports `mounted_devices_count` attached volumes.
pub struct MockAWS {
    pub simulate_aws_err: bool,
    pub mounted_devices_count: u32,
}

impl Default for MockAWS {
    fn default() -> (r: Self)
        ensures
            !r.simulate_aws_err,
            r.mounted_devices_count == 1,
    {
        MockAWS { simulate_aws_err: false, mounted_devices_count: 1 }
    }
}

impl AWS for MockAWS {
    fn request_ebs_volume(
        &mut self,
        size: u64,
        vol_type: String,
        encrypted: bool,
        throughput: u64,
    ) -> (r: Result<String, Box<GenericAWSError>>)
        ensures
            *final(self) == *old(self),
            r is Err <==> old(self).simulate_aws_err,
            r matches Ok(name) ==> name@ == "/dev/test"@,
    {
        if self.simulate_aws_err {
            return Err(Box::new(GenericAWSError));
        }
        proof {
            reveal_strlit("/dev/test");
        }
        Ok("/dev/test".to_string())
    }

    fn attach_ebs_volume(&mut self, volume: String, device: String) -> (r: Result<
        String,
        Box<GenericAWSError>,
    >)
        ensures
            *final(self) == *old(self),
            r is Err <==> old(self).simulate_aws_err,
            r matches Ok(name) ==> name@ == "/dev/test"@,
    {
        if self.simulate_aws_err {
            return Err(Box::new(GenericAWSError));
        }
        proof {
            reveal_strlit("/dev/test");
        }
        Ok("/dev/test".to_string())
    }

    fn get_managed_ebs_volumes(&mut self)
        ensures
            *final(self) == *old(self),
    {
    }

    fn count_mounted_ebs_volumes(&mut self) -> (r: u32)
        ensures
            *final(self) == *old(self),
            r == old(self).mounted_devices_count,
    {
        self.mounted_devices_count
    }

    fn delete_ebs_volume(&mut self)
        ensures
            *final(self) == *old(self),
    {
    }

    fn tag_as_delete_on_term(&mut self, device: String) -> (r: Result<String, Box<GenericAWSError>>)
        ensures
            *final(self) == *old(self),
            r is Err <==> old(self).simulate_aws_err,
            r matches Ok(name) ==> name@ == "/dev/test"@,
    {
        if self.simulate_aws_err {
            return Err(Box::new(GenericAWSError));
        }
        proof {
            reveal_strlit("/dev/test");
        }
        Ok("/dev/test".to_string())
    }
}

} // verus!
