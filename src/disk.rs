use vstd::prelude::*;

verus! {

/// Capacity of the disk holding a directory, in bytes.
#[derive(Clone, Copy, Debug, PartialEq, Eq, Structural)]
pub struct DiskSpace {
    pub total: u64,
    pub available: u64,
}

/// Combines the two capacity queries of one directory; the error of the
/// total-space query wins when both failed.
pub fn disk_space(total: Result<u64, String>, available: Result<u64, String>) -> (r: Result<DiskSpace, String>)
    ensures
        match (total, available) {
            (Ok(t), Ok(a)) => r == Ok::<DiskSpace, String>(DiskSpace { total: t, available: a }),
            (Err(e), _) => r == Err::<DiskSpace, String>(e),
            (Ok(_), Err(e)) => r == Err::<DiskSpace, String>(e),
        },
{
    match (total, available) {
        (Ok(t), Ok(a)) => Ok(DiskSpace { total: t, available: a }),
        (Err(e), _) => Err(e),
        (Ok(_), Err(e)) => Err(e),
    }
}

} // verus!
