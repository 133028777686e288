use vstd::prelude::*;

verus! {

/// Permission levels of a user of the hosting database.
#[derive(Debug, Clone, Copy, PartialEq, Eq, Structural)]
pub enum UserPermission {
    /// Administrator.
    Admin,
}

/// The resources that a workload needs.
#[derive(Debug, Clone, Copy, PartialEq, Eq, Structural)]
pub struct Capacity {
    /// Drive space in GiB.
    pub drive: i64,
    /// CPU cores.
    pub cores: i64,
}

impl Default for Capacity {
    fn default() -> (c: Self)
        ensures
            c.drive == 0,
            c.cores == 0,
    {
        Capacity { drive: 0, cores: 0 }
    }
}

} // verus!
